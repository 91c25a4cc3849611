//! The concurrent maps that hold the hub's state.
//!
//! The hub keeps its sets and maps in `dashmap` collections. This module
//! gives each of them its contents as a mathematical set or map, and each
//! operation that the hub performs on them its effect on those contents.
//! Every change goes through an exclusive reference, so that between two
//! operations of the hub the contents are what the last one left.

use vstd::prelude::*;
use vstd::string::*;
use dashmap::DashMap;
use dashmap::DashSet;

verus! {

/// `dashmap::DashMap`, a concurrent map. Nothing of its inside is known here.
#[verifier::external_type_specification]
#[verifier::external_body]
#[verifier::reject_recursive_types(K)]
#[verifier::reject_recursive_types(V)]
#[verifier::reject_recursive_types(S)]
pub struct ExDashMap<K, V, S>(DashMap<K, V, S>);

/// `dashmap::DashSet`, a concurrent set. Nothing of its inside is known here.
#[verifier::external_type_specification]
#[verifier::external_body]
#[verifier::reject_recursive_types(K)]
#[verifier::reject_recursive_types(S)]
pub struct ExDashSet<K, S>(DashSet<K, S>);

/// What to do with an archive once it has been received: unpack it into
/// `target_dir`, over what may be there if `overwrite` is set.
#[derive(Debug, Clone)]
pub struct PostExtract {
    pub target_dir: String,
    pub overwrite: bool,
}

/// A registered bulk transfer: the archive it is about, what to do after an
/// upload, and the time at which it was announced, in milliseconds.
#[derive(Debug, Clone)]
pub struct Ticket {
    pub hash: String,
    pub post_extract: Option<PostExtract>,
    pub issued_at: u64,
}

/// A [`PostExtract`] in contracts.
pub ghost struct PostExtractView {
    pub target_dir: Seq<char>,
    pub overwrite: bool,
}

/// A [`Ticket`] in contracts.
pub ghost struct TicketView {
    pub hash: Seq<char>,
    pub post_extract: Option<PostExtractView>,
    pub issued_at: u64,
}

impl View for PostExtract {
    type V = PostExtractView;

    open spec fn view(&self) -> PostExtractView {
        PostExtractView { target_dir: self.target_dir@, overwrite: self.overwrite }
    }
}

impl View for Ticket {
    type V = TicketView;

    open spec fn view(&self) -> TicketView {
        TicketView {
            hash: self.hash@,
            post_extract: match self.post_extract {
                Some(p) => Some(p@),
                None => None,
            },
            issued_at: self.issued_at,
        }
    }
}

/// The texts that a set of strings holds.
pub uninterp spec fn set_contents(set: DashSet<String>) -> Set<Seq<char>>;

/// The sets of texts that a map from strings to sets of strings holds, by key.
pub uninterp spec fn index_contents(map: DashMap<String, DashSet<String>>) -> Map<
    Seq<char>,
    Set<Seq<char>>,
>;

/// The tickets that a map from strings to tickets holds, by key.
pub uninterp spec fn ticket_contents(map: DashMap<String, Ticket>) -> Map<Seq<char>, TicketView>;

/// `DashSet::new`: a set that holds nothing.
#[verifier::external_body]
pub(crate) fn set_new() -> (set: DashSet<String>)
    ensures
        set_contents(set) == Set::<Seq<char>>::empty(),
{
    DashSet::new()
}

/// `DashSet::insert`: afterwards the set holds the key besides what it
/// held; the answer is whether the key is new to it.
#[verifier::external_body]
pub(crate) fn set_insert(set: &mut DashSet<String>, key: &str) -> (fresh: bool)
    ensures
        set_contents(*final(set)) == set_contents(*old(set)).insert(key@),
        fresh == !set_contents(*old(set)).contains(key@),
{
    set.insert(key.to_owned())
}

/// `DashSet::contains`: whether the set holds the key.
#[verifier::external_body]
pub(crate) fn set_contains(set: &DashSet<String>, key: &str) -> (found: bool)
    ensures
        found == set_contents(*set).contains(key@),
{
    set.contains(key)
}

/// `DashMap::new`: a map that holds nothing.
#[verifier::external_body]
pub(crate) fn index_new() -> (index: DashMap<String, DashSet<String>>)
    ensures
        index_contents(index).dom() == Set::<Seq<char>>::empty(),
{
    DashMap::new()
}

/// The set that an index holds under `key`, or the empty set where it holds none.
pub open spec fn set_under(index: Map<Seq<char>, Set<Seq<char>>>, key: Seq<char>) -> Set<
    Seq<char>,
> {
    if index.dom().contains(key) {
        index[key]
    } else {
        Set::empty()
    }
}

/// `DashMap::entry`, `Entry::or_insert` with an empty `DashSet`, then
/// `DashSet::insert` on the set of the entry: afterwards the set under
/// `key`, or a new one where the map had none, holds `member` besides what
/// it held; every other key keeps its set.
#[verifier::external_body]
pub(crate) fn index_insert(map: &mut DashMap<String, DashSet<String>>, key: &str, member: &str)
    ensures
        index_contents(*final(map)) == index_contents(*old(map)).insert(
            key@,
            set_under(index_contents(*old(map)), key@).insert(member@),
        ),
{
    map.entry(key.to_owned()).or_insert(DashSet::new()).insert(member.to_owned());
}

/// `DashMap::get`, then `DashSet::contains` on the set that was found:
/// nothing where the map has no set under `key`, else whether that set
/// holds `member`.
#[verifier::external_body]
pub(crate) fn index_lookup(map: &DashMap<String, DashSet<String>>, key: &str, member: &str) -> (found:
    Option<bool>)
    ensures
        found is Some <==> index_contents(*map).dom().contains(key@),
        found matches Some(b) ==> b == index_contents(*map)[key@].contains(member@),
{
    match map.get(key) {
        Some(set) => Some(set.contains(member)),
        None => None,
    }
}

/// `DashMap::new`: a map that holds nothing.
#[verifier::external_body]
pub(crate) fn tickets_new() -> (tickets: DashMap<String, Ticket>)
    ensures
        ticket_contents(tickets).dom() == Set::<Seq<char>>::empty(),
{
    DashMap::new()
}

/// `DashMap::insert`: afterwards the map holds the ticket under the key, in
/// the place of what it may have held there; every other key keeps its ticket.
#[verifier::external_body]
pub(crate) fn tickets_insert(map: &mut DashMap<String, Ticket>, key: &str, ticket: Ticket)
    ensures
        ticket_contents(*final(map)) == ticket_contents(*old(map)).insert(key@, ticket@),
{
    map.insert(key.to_owned(), ticket);
}

/// `DashMap::get`: a copy of the ticket under the key, if the map holds one.
#[verifier::external_body]
pub(crate) fn tickets_get(map: &DashMap<String, Ticket>, key: &str) -> (found: Option<Ticket>)
    ensures
        found is Some <==> ticket_contents(*map).dom().contains(key@),
        found matches Some(ticket) ==> ticket@ == ticket_contents(*map)[key@],
{
    match map.get(key) {
        Some(entry) => Some(entry.value().clone()),
        None => None,
    }
}

/// `DashMap::remove`: afterwards the map holds nothing under the key; every
/// other key keeps its ticket. The answer is the ticket that was there.
#[verifier::external_body]
pub(crate) fn tickets_remove(map: &mut DashMap<String, Ticket>, key: &str) -> (removed: Option<Ticket>)
    ensures
        ticket_contents(*final(map)) == ticket_contents(*old(map)).remove(key@),
        removed is Some <==> ticket_contents(*old(map)).dom().contains(key@),
        removed matches Some(ticket) ==> ticket@ == ticket_contents(*old(map))[key@],
{
    match map.remove(key) {
        Some(pair) => Some(pair.1),
        None => None,
    }
}

} // verus!
