//! The outbox: an account's stored posts as one ordered collection.

use vstd::prelude::*;
use vstd::string::*;

use crate::error::ResolveError;

verus! {

/// One unit of published content.
#[derive(Debug, PartialEq, Eq)]
pub struct Post {
    /// The text of the post.
    pub content: String,
}

/// What the post store returned for one listed entry.
#[derive(Debug, PartialEq, Eq)]
pub enum LoadedPost {
    /// The entry held a well-formed post.
    Parsed(Post),
    /// The entry could not be read as a post.
    ParseError,
}

impl View for LoadedPost {
    type V = Option<Seq<char>>;

    /// The content of a well-formed post, `None` for an entry that did not
    /// parse.
    open spec fn view(&self) -> Option<Seq<char>> {
        match self {
            LoadedPost::Parsed(post) => Some(post.content@),
            LoadedPost::ParseError => None,
        }
    }
}

/// What the post store answered when asked for an account's posts.
#[derive(Debug, PartialEq, Eq)]
pub enum PostListing {
    /// The account has no outbox container at all.
    NotFound,
    /// The container exists but could not be listed.
    IoError,
    /// The container's entries, in the order the store listed them.
    Entries(Vec<LoadedPost>),
}

/// A [`PostListing`] with each entry shown by its view.
pub enum PostListingView {
    NotFound,
    IoError,
    Entries(Seq<Option<Seq<char>>>),
}

impl View for PostListing {
    type V = PostListingView;

    open spec fn view(&self) -> PostListingView {
        match self {
            PostListing::NotFound => PostListingView::NotFound,
            PostListing::IoError => PostListingView::IoError,
            PostListing::Entries(entries) => PostListingView::Entries(
                entries@.map_values(|entry: LoadedPost| entry@),
            ),
        }
    }
}

/// The posts of one account, wrapped for retrieval.
#[derive(Debug, PartialEq, Eq)]
pub struct OutboxCollection {
    /// The JSON-LD context of the document.
    pub context: String,
    /// The kind of collection; always `OrderedCollection`.
    pub kind: String,
    /// How many posts the collection holds.
    pub total_items: usize,
    /// The posts, in the order the store listed them.
    pub ordered_items: Vec<Post>,
}

/// An [`OutboxCollection`] as plain values; a post is shown by its content.
pub struct OutboxView {
    pub context: Seq<char>,
    pub kind: Seq<char>,
    pub total_items: nat,
    pub ordered_items: Seq<Seq<char>>,
}

impl View for OutboxCollection {
    type V = OutboxView;

    open spec fn view(&self) -> OutboxView {
        OutboxView {
            context: self.context@,
            kind: self.kind@,
            total_items: self.total_items as nat,
            ordered_items: self.ordered_items@.map_values(|post: Post| post.content@),
        }
    }
}

impl OutboxCollection {
    /// The count matches the items.
    pub open spec fn well_formed(&self) -> bool {
        self.total_items == self.ordered_items@.len()
    }
}

/// Whether every entry of a listing held a well-formed post.
pub open spec fn all_parsed(entries: Seq<Option<Seq<char>>>) -> bool {
    forall|i: int| 0 <= i < entries.len() ==> #[trigger] entries[i] is Some
}

/// The content of each entry, in listing order. Meaningful where
/// [`all_parsed`] holds.
pub open spec fn contents(entries: Seq<Option<Seq<char>>>) -> Seq<Seq<char>> {
    entries.map_values(|entry: Option<Seq<char>>| entry->0)
}

/// The collection that wraps the given post contents.
pub open spec fn outbox_document(items: Seq<Seq<char>>) -> OutboxView {
    OutboxView {
        context: "https://www.w3.org/ns/activitystreams"@,
        kind: "OrderedCollection"@,
        total_items: items.len(),
        ordered_items: items,
    }
}

/// What the outbox answers for each answer of the post store.
///
/// One unreadable post fails the whole request: a listing is either shown in
/// full or not at all.
pub open spec fn outbox_outcome(listing: PostListingView) -> Result<OutboxView, ResolveError> {
    match listing {
        PostListingView::NotFound => Err(ResolveError::NotFound),
        PostListingView::IoError => Err(ResolveError::Internal),
        PostListingView::Entries(entries) => if all_parsed(entries) {
            Ok(outbox_document(contents(entries)))
        } else {
            Err(ResolveError::Internal)
        },
    }
}

/// An outbox result with its collection replaced by the collection's view.
pub open spec fn outbox_result_view(result: Result<OutboxCollection, ResolveError>) -> Result<
    OutboxView,
    ResolveError,
> {
    match result {
        Ok(collection) => Ok(collection@),
        Err(e) => Err(e),
    }
}

/// Wraps what the post store listed for an account.
///
/// The collection keeps the store's order: this library neither sorts nor
/// drops entries, so a store that wants its posts in a particular order lists
/// them in that order. A missing container is `NotFound`. A container that
/// could not be listed is `Internal`, and so is a listing with even one entry
/// that failed to parse: a corrupt post never silently vanishes.
pub fn resolve_outbox(listing: PostListing) -> (result: Result<OutboxCollection, ResolveError>)
    ensures
        outbox_result_view(result) == outbox_outcome(listing@),
        result matches Ok(collection) ==> collection.well_formed(),
{
    let entries = match listing {
        PostListing::NotFound => {
            return Err(ResolveError::NotFound);
        },
        PostListing::IoError => {
            return Err(ResolveError::Internal);
        },
        PostListing::Entries(entries) => entries,
    };
    let ghost listed = entries@.map_values(|entry: LoadedPost| entry@);
    let mut posts: Vec<Post> = Vec::new();
    for entry in it: entries
        invariant
            it.seq().map_values(|entry: LoadedPost| entry@) == listed,
            listing@ == PostListingView::Entries(listed),
            posts@.len() == it.index(),
            forall|i: int| 0 <= i < it.index() ==> (#[trigger] listed[i]) is Some,
            forall|i: int|
                0 <= i < it.index() ==> (#[trigger] posts@[i]).content@ == listed[i]->0,
    {
        assert(listed[it.index() as int] == entry@);
        match entry {
            LoadedPost::Parsed(post) => {
                posts.push(post);
            },
            LoadedPost::ParseError => {
                return Err(ResolveError::Internal);
            },
        }
    }
    let collection = OutboxCollection {
        context: String::from_str("https://www.w3.org/ns/activitystreams"),
        kind: String::from_str("OrderedCollection"),
        total_items: posts.len(),
        ordered_items: posts,
    };
    proof {
        assert(collection@.ordered_items =~= contents(listed));
    }
    Ok(collection)
}

/// A listing of well-formed posts yields a collection of exactly those posts,
/// in listing order, and its count is their number. In particular an empty
/// listing yields a count of zero and no items.
pub proof fn lemma_outbox_holds_what_was_listed(entries: Seq<Option<Seq<char>>>)
    requires
        all_parsed(entries),
    ensures
        outbox_outcome(PostListingView::Entries(entries)) matches Ok(collection) && {
            &&& collection.total_items == entries.len()
            &&& collection.ordered_items.len() == entries.len()
            &&& forall|i: int|
                0 <= i < entries.len() ==> entries[i] == Some(#[trigger] collection.ordered_items[i])
            &&& entries.len() == 0 ==> collection.ordered_items == Seq::<Seq<char>>::empty()
        },
{
    let collection = outbox_outcome(PostListingView::Entries(entries))->Ok_0;
    if entries.len() == 0 {
        assert(collection.ordered_items =~= Seq::<Seq<char>>::empty());
    }
}

/// Whatever the store answered, a collection that is returned counts exactly
/// the items it holds.
pub proof fn lemma_outbox_count_matches_items(listing: PostListingView)
    ensures
        outbox_outcome(listing) matches Ok(collection) ==> collection.total_items
            == collection.ordered_items.len(),
{
}

/// The outbox fails exactly on a missing container (not found), and on an
/// unreadable container or entry (internal).
pub proof fn lemma_outbox_failures(listing: PostListingView)
    ensures
        outbox_outcome(listing) == Err::<OutboxView, ResolveError>(ResolveError::NotFound)
            <==> listing is NotFound,
        outbox_outcome(listing) == Err::<OutboxView, ResolveError>(ResolveError::Internal)
            <==> listing is IoError || (listing matches PostListingView::Entries(entries)
            && exists|i: int| 0 <= i < entries.len() && #[trigger] entries[i] is None),
{
    if let PostListingView::Entries(entries) = listing {
        if !all_parsed(entries) {
            let i = choose|i: int| 0 <= i < entries.len() && !(#[trigger] entries[i] is Some);
            assert(entries[i] is None);
        }
    }
}

/// Reading the same outbox twice from an unchanged store yields the same
/// collection: the outcome depends on nothing but what the store listed.
pub proof fn lemma_outbox_is_repeatable(first: PostListing, second: PostListing)
    requires
        first@ == second@,
    ensures
        outbox_outcome(first@) == outbox_outcome(second@),
{
}

} // verus!
