//! The agent record, and the rule by which rows read from the store become
//! records.

use vstd::prelude::*;

verus! {

/// Snapshot of one remote agent. Nothing changes a record once it is
/// loaded.
#[derive(Clone, Debug, PartialEq, Eq)]
pub struct AgentRecord {
    pub id: String,
    pub hostname: String,
    pub ip: String,
    pub os: Option<String>,
    pub status: String,
    pub last_seen: Option<String>,
    pub location: Option<String>,
    pub note: Option<String>,
}

/// A record as text: each field by its characters.
pub ghost struct AgentView {
    pub id: Seq<char>,
    pub hostname: Seq<char>,
    pub ip: Seq<char>,
    pub os: Option<Seq<char>>,
    pub status: Seq<char>,
    pub last_seen: Option<Seq<char>>,
    pub location: Option<Seq<char>>,
    pub note: Option<Seq<char>>,
}

/// One row as the store hands it over: every column may have failed to
/// read.
#[derive(Clone, Debug, PartialEq, Eq)]
pub struct AgentRow {
    pub id: Option<String>,
    pub hostname: Option<String>,
    pub ip: Option<String>,
    pub os: Option<String>,
    pub status: Option<String>,
    pub last_seen: Option<String>,
    pub location: Option<String>,
    pub note: Option<String>,
}

pub open spec fn spec_text(field: Option<String>) -> Option<Seq<char>> {
    match field {
        Some(s) => Some(s@),
        None => None,
    }
}

impl View for AgentRecord {
    type V = AgentView;

    open spec fn view(&self) -> AgentView {
        AgentView {
            id: self.id@,
            hostname: self.hostname@,
            ip: self.ip@,
            os: spec_text(self.os),
            status: self.status@,
            last_seen: spec_text(self.last_seen),
            location: spec_text(self.location),
            note: spec_text(self.note),
        }
    }
}

impl AgentRow {
    /// The four columns that a record cannot do without were read.
    pub open spec fn spec_complete(self) -> bool {
        self.id.is_some() && self.hostname.is_some() && self.ip.is_some() && self.status.is_some()
    }

    /// The record that a complete row stands for.
    pub open spec fn spec_record(self) -> AgentView {
        AgentView {
            id: self.id.unwrap()@,
            hostname: self.hostname.unwrap()@,
            ip: self.ip.unwrap()@,
            os: spec_text(self.os),
            status: self.status.unwrap()@,
            last_seen: spec_text(self.last_seen),
            location: spec_text(self.location),
            note: spec_text(self.note),
        }
    }
}

/// The records of the complete rows, in the rows' order.
pub open spec fn spec_records(rows: Seq<AgentRow>) -> Seq<AgentView>
    decreases rows.len(),
{
    if rows.len() == 0 {
        Seq::empty()
    } else if rows.last().spec_complete() {
        spec_records(rows.drop_last()).push(rows.last().spec_record())
    } else {
        spec_records(rows.drop_last())
    }
}

/// The records by their text.
pub open spec fn spec_views(agents: Seq<AgentRecord>) -> Seq<AgentView> {
    Seq::new(agents.len(), |i: int| agents[i]@)
}

fn copy_text(field: &Option<String>) -> (out: Option<String>)
    ensures
        spec_text(out) == spec_text(*field),
{
    match field {
        Some(s) => Some(s.clone()),
        None => None,
    }
}

/// Turns a row into a record. A row that lacks its id, hostname, address
/// or status gives none; a missing optional column stays missing.
pub fn record_of(row: &AgentRow) -> (out: Option<AgentRecord>)
    ensures
        out.is_some() <==> row.spec_complete(),
        out.is_some() ==> out.unwrap()@ == row.spec_record(),
{
    match (&row.id, &row.hostname, &row.ip, &row.status) {
        (Some(id), Some(hostname), Some(ip), Some(status)) => Some(
            AgentRecord {
                id: id.clone(),
                hostname: hostname.clone(),
                ip: ip.clone(),
                os: copy_text(&row.os),
                status: status.clone(),
                last_seen: copy_text(&row.last_seen),
                location: copy_text(&row.location),
                note: copy_text(&row.note),
            },
        ),
        _ => None,
    }
}

/// Keeps the rows that make a record, in their order, and drops the
/// others.
pub fn records_of(rows: &Vec<AgentRow>) -> (out: Vec<AgentRecord>)
    ensures
        spec_views(out@) == spec_records(rows@),
        out@.len() <= rows@.len(),
{
    let mut out: Vec<AgentRecord> = Vec::new();
    let mut i: usize = 0;
    while i < rows.len()
        invariant
            i <= rows.len(),
            out@.len() <= i,
            spec_views(out@) =~= spec_records(rows@.take(i as int)),
        decreases rows.len() - i,
    {
        proof {
            assert(rows@.take(i as int + 1).drop_last() =~= rows@.take(i as int));
            assert(rows@.take(i as int + 1).last() == rows@[i as int]);
        }
        let ghost before = out@;
        match record_of(&rows[i]) {
            Some(record) => {
                out.push(record);
                assert(spec_views(out@) =~= spec_views(before).push(record@));
            },
            None => {},
        }
        i = i + 1;
    }
    proof {
        assert(rows@.take(i as int) =~= rows@);
    }
    out
}

/// What the session starts with: the records that the store gave, or no
/// records where the store could not be read.
pub fn loaded_or_empty(loaded: Option<Vec<AgentRecord>>) -> (agents: Vec<AgentRecord>)
    ensures
        loaded.is_some() ==> agents == loaded.unwrap(),
        loaded.is_none() ==> agents@.len() == 0,
{
    match loaded {
        Some(agents) => agents,
        None => Vec::new(),
    }
}

} // verus!
