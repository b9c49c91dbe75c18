//! One decoded event-log record, as the detectors read it.

use crate::text::str_eq;
use vstd::prelude::*;

verus! {

/// The map that a list of entries stands for: a later entry replaces an
/// earlier one of the same name.
pub open spec fn entries_map(entries: Seq<(String, String)>) -> Map<Seq<char>, Seq<char>>
    decreases entries.len(),
{
    if entries.len() == 0 {
        Map::<Seq<char>, Seq<char>>::empty()
    } else {
        entries_map(entries.drop_last()).insert(entries.last().0@, entries.last().1@)
    }
}

/// The entry at `at` decides the value of `name` where no later entry has
/// that name.
proof fn lemma_last_entry_decides(entries: Seq<(String, String)>, at: int, name: Seq<char>)
    requires
        0 <= at < entries.len(),
        entries[at].0@ == name,
        forall|k: int| at < k < entries.len() ==> entries[k].0@ != name,
    ensures
        entries_map(entries).contains_key(name),
        entries_map(entries)[name] == entries[at].1@,
    decreases entries.len(),
{
    if at < entries.len() - 1 {
        lemma_last_entry_decides(entries.drop_last(), at, name);
    }
}

/// A name that no entry has is not in the map.
proof fn lemma_absent_name(entries: Seq<(String, String)>, name: Seq<char>)
    requires
        forall|k: int| 0 <= k < entries.len() ==> entries[k].0@ != name,
    ensures
        !entries_map(entries).contains_key(name),
    decreases entries.len(),
{
    if entries.len() > 0 {
        lemma_absent_name(entries.drop_last(), name);
    }
}

/// The named fields of a record: a map from field name to value.
pub struct EventData {
    entries: Vec<(String, String)>,
}

impl EventData {
    /// The fields as a map from name to value.
    pub closed spec fn view(&self) -> Map<Seq<char>, Seq<char>> {
        entries_map(self.entries@)
    }

    /// A record without fields.
    pub fn new() -> (r: EventData)
        ensures
            r@ == Map::<Seq<char>, Seq<char>>::empty(),
    {
        EventData { entries: Vec::new() }
    }

    /// The value of the field `name`, if the record has it.
    pub fn get(&self, name: &str) -> (r: Option<&String>)
        ensures
            r.is_some() == self@.contains_key(name@),
            r.is_some() ==> r.unwrap()@ == self@[name@],
    {
        let mut i: usize = self.entries.len();
        while i > 0
            invariant
                i <= self.entries.len(),
                forall|k: int| i <= k < self.entries.len() ==> self.entries[k].0@ != name@,
            decreases i,
        {
            i -= 1;
            if str_eq(self.entries[i].0.as_str(), name) {
                proof {
                    lemma_last_entry_decides(self.entries@, i as int, name@);
                }
                return Some(&self.entries[i].1);
            }
        }
        proof {
            lemma_absent_name(self.entries@, name@);
        }
        None
    }

    /// Sets the field `name` to `value`, in place of any value it had.
    pub fn insert(&mut self, name: String, value: String)
        ensures
            final(self)@ == old(self)@.insert(name@, value@),
    {
        let ghost before = self.entries@;
        self.entries.push((name, value));
        assert(self.entries@.drop_last() =~= before);
    }
}

/// The source of a record.
pub struct Provider {
    /// The name of the provider, where the record names one.
    pub name: Option<String>,
}

/// The time at which a record was written.
pub struct TimeCreated {
    /// The time stamp as text; it is passed on and never parsed.
    pub system_time: String,
}

/// The header of a record.
pub struct SystemFields {
    /// The source of the record.
    pub provider: Provider,
    /// The identifier of the event, which belongs to its channel.
    pub event_id: String,
    /// The log that the record belongs to.
    pub channel: String,
    /// The time at which the record was written.
    pub time_created: TimeCreated,
    /// The free text of the record, where it has one.
    pub message: Option<String>,
}

/// One decoded record.
pub struct Evtx {
    /// The header.
    pub system: SystemFields,
    /// The named fields.
    pub event_data: EventData,
    /// The structured block that some records carry in place of named fields.
    pub user_data: Option<EventData>,
}

} // verus!
