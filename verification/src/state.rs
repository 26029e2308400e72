//! The records of the ledger and the form in which they are stored.
use vstd::prelude::*;

verus! {

/// Progress of an entry.
#[derive(Clone, Copy, Debug, PartialEq, Eq, Structural)]
pub enum Status {
    ToDo,
    InProgress,
    Done,
}

/// Urgency of an entry.  `Unset` is what an entry has when none was asked for.
#[derive(Clone, Copy, Debug, PartialEq, Eq, Structural)]
pub enum Priority {
    Unset,
    Low,
    Medium,
    High,
}

impl Status {
    /// The number under which the status is stored.
    pub open spec fn code(self) -> u8 {
        match self {
            Status::ToDo => 0,
            Status::InProgress => 1,
            Status::Done => 2,
        }
    }

    /// The status that a stored number stands for, if any.
    pub open spec fn decode(code: u8) -> Option<Status> {
        if code == 0 {
            Some(Status::ToDo)
        } else if code == 1 {
            Some(Status::InProgress)
        } else if code == 2 {
            Some(Status::Done)
        } else {
            None
        }
    }

    pub fn to_code(self) -> (code: u8)
        ensures
            code == self.code(),
    {
        match self {
            Status::ToDo => 0,
            Status::InProgress => 1,
            Status::Done => 2,
        }
    }

    pub fn from_code(code: u8) -> (status: Option<Status>)
        ensures
            status == Status::decode(code),
    {
        if code == 0 {
            Some(Status::ToDo)
        } else if code == 1 {
            Some(Status::InProgress)
        } else if code == 2 {
            Some(Status::Done)
        } else {
            None
        }
    }
}

impl Priority {
    /// The number under which the priority is stored.
    pub open spec fn code(self) -> u8 {
        match self {
            Priority::Unset => 0,
            Priority::Low => 1,
            Priority::Medium => 2,
            Priority::High => 3,
        }
    }

    /// The priority that a stored number stands for, if any.
    pub open spec fn decode(code: u8) -> Option<Priority> {
        if code == 0 {
            Some(Priority::Unset)
        } else if code == 1 {
            Some(Priority::Low)
        } else if code == 2 {
            Some(Priority::Medium)
        } else if code == 3 {
            Some(Priority::High)
        } else {
            None
        }
    }

    pub fn to_code(self) -> (code: u8)
        ensures
            code == self.code(),
    {
        match self {
            Priority::Unset => 0,
            Priority::Low => 1,
            Priority::Medium => 2,
            Priority::High => 3,
        }
    }

    pub fn from_code(code: u8) -> (priority: Option<Priority>)
        ensures
            priority == Priority::decode(code),
    {
        if code == 0 {
            Some(Priority::Unset)
        } else if code == 1 {
            Some(Priority::Low)
        } else if code == 2 {
            Some(Priority::Medium)
        } else if code == 3 {
            Some(Priority::High)
        } else {
            None
        }
    }
}

/// The characters of an optional string.
pub open spec fn chars(text: Option<String>) -> Option<Seq<char>> {
    match text {
        Some(t) => Some(t@),
        None => None,
    }
}

/// What storage keeps of one entry: its description, then the codes of its
/// status and of its priority.  The identifier is the key it is kept under.
pub type Record = (Seq<char>, u8, u8);

/// One to-do item.
#[derive(Clone, Debug, PartialEq, Eq)]
pub struct Entry {
    pub id: u64,
    pub description: String,
    pub status: Status,
    pub priority: Priority,
}

/// An entry as a mathematical value.
pub struct EntryView {
    pub id: u64,
    pub description: Seq<char>,
    pub status: Status,
    pub priority: Priority,
}

impl View for Entry {
    type V = EntryView;

    open spec fn view(&self) -> EntryView {
        EntryView {
            id: self.id,
            description: self.description@,
            status: self.status,
            priority: self.priority,
        }
    }
}

/// The entries of a list as mathematical values.
pub open spec fn views(entries: Seq<Entry>) -> Seq<EntryView> {
    Seq::new(entries.len(), |i: int| entries[i]@)
}

impl EntryView {
    /// The entry that `create_entry` makes: not started, and of no priority
    /// unless one is asked for.
    pub open spec fn fresh(id: u64, description: Seq<char>, priority: Option<Priority>) -> EntryView {
        EntryView {
            id,
            description,
            status: Status::ToDo,
            priority: match priority {
                Some(p) => p,
                None => Priority::Unset,
            },
        }
    }

    /// A partial update: each field that is given replaces the old one, each
    /// field that is left out stays.  The identifier never changes.
    pub open spec fn merged(
        self,
        description: Option<Seq<char>>,
        status: Option<Status>,
        priority: Option<Priority>,
    ) -> EntryView {
        EntryView {
            id: self.id,
            description: match description {
                Some(d) => d,
                None => self.description,
            },
            status: match status {
                Some(s) => s,
                None => self.status,
            },
            priority: match priority {
                Some(p) => p,
                None => self.priority,
            },
        }
    }

    /// The stored form of the entry.
    pub open spec fn record(self) -> Record {
        (self.description, self.status.code(), self.priority.code())
    }

    /// The entry that a record stored under `id` stands for.  `None` where a
    /// code in the record names no status or no priority.
    pub open spec fn decode(id: u64, record: Record) -> Option<EntryView> {
        match (Status::decode(record.1), Priority::decode(record.2)) {
            (Some(status), Some(priority)) => Some(
                EntryView { id, description: record.0, status, priority },
            ),
            _ => None,
        }
    }
}

impl Entry {
    /// A new entry: not started, and of no priority unless one is given.
    pub fn new(id: u64, description: String, priority: Option<Priority>) -> (entry: Entry)
        ensures
            entry@ == EntryView::fresh(id, description@, priority),
    {
        let priority = match priority {
            Some(p) => p,
            None => Priority::Unset,
        };
        Entry { id, description, status: Status::ToDo, priority }
    }

    /// Applies a partial update.
    pub fn merge(
        self,
        description: Option<String>,
        status: Option<Status>,
        priority: Option<Priority>,
    ) -> (entry: Entry)
        ensures
            entry@ == self@.merged(chars(description), status, priority),
    {
        let description = match description {
            Some(d) => d,
            None => self.description,
        };
        let status = match status {
            Some(s) => s,
            None => self.status,
        };
        let priority = match priority {
            Some(p) => p,
            None => self.priority,
        };
        Entry { id: self.id, description, status, priority }
    }

    /// The stored form of the entry.
    pub fn into_record(self) -> (record: (String, u8, u8))
        ensures
            record@ == self@.record(),
    {
        (self.description, self.status.to_code(), self.priority.to_code())
    }

    /// Reads back a record stored under `id`.
    pub fn from_record(id: u64, record: (String, u8, u8)) -> (entry: Option<Entry>)
        ensures
            match entry {
                Some(e) => EntryView::decode(id, record@) == Some(e@),
                None => EntryView::decode(id, record@) is None,
            },
    {
        let (description, status, priority) = record;
        match Status::from_code(status) {
            Some(status) => match Priority::from_code(priority) {
                Some(priority) => Some(Entry { id, description, status, priority }),
                None => None,
            },
            None => None,
        }
    }
}

/// An entry is read back from its record without loss.
pub proof fn entry_reads_back(entry: EntryView)
    ensures
        EntryView::decode(entry.id, entry.record()) == Some(entry),
{
}

/// A record that can be read is stored again exactly as it was, and the
/// entry read from it has the identifier it was stored under.
pub proof fn record_is_kept(id: u64, record: Record)
    requires
        EntryView::decode(id, record) is Some,
    ensures
        EntryView::decode(id, record).unwrap().id == id,
        EntryView::decode(id, record).unwrap().record() == record,
{
}

/// The single administrator of the ledger.
#[derive(Clone, Debug, PartialEq, Eq)]
pub struct Config {
    pub owner: String,
}

} // verus!
