//! Composition of a frame: what each of the five panels shows for a given
//! list of agents and a given selection. Nothing here draws; a frame is a
//! value that a front end paints.

use vstd::prelude::*;
use crate::agent::{AgentRecord, AgentView};
use crate::layout::{DashboardLayout, Region};

verus! {

/// One line of the agent list.
#[derive(Clone, Debug, PartialEq, Eq)]
pub struct ListRow {
    pub text: String,
    /// The line is the selected one and is drawn inverted.
    pub highlighted: bool,
}

/// A bordered panel with a title and nothing inside.
#[derive(Clone, Debug, PartialEq, Eq)]
pub struct Panel {
    pub region: Region,
    pub title: String,
}

/// The bordered panel that lists the agents.
#[derive(Clone, Debug, PartialEq, Eq)]
pub struct ListPanel {
    pub region: Region,
    pub title: String,
    pub rows: Vec<ListRow>,
}

/// The bordered panel that holds the selected agent's data sheet.
#[derive(Clone, Debug, PartialEq, Eq)]
pub struct TextPanel {
    pub region: Region,
    pub title: String,
    pub lines: Vec<String>,
}

/// Everything that is drawn on one tick.
#[derive(Clone, Debug, PartialEq, Eq)]
pub struct Frame {
    pub logo: Panel,
    pub menu: Panel,
    pub agent_list: ListPanel,
    pub detail: TextPanel,
    pub status: Panel,
}

/// What stands in for an optional field that is absent.
pub open spec fn spec_placeholder() -> Seq<char> {
    "-"@
}

/// The single line of the data sheet when no agent is selected.
pub open spec fn spec_no_selection() -> Seq<char> {
    "Aucun agent sélectionné"@
}

pub open spec fn spec_separator() -> Seq<char> {
    " | "@
}

pub open spec fn spec_or_placeholder(field: Option<Seq<char>>) -> Seq<char> {
    match field {
        Some(text) => text,
        None => spec_placeholder(),
    }
}

/// The line of one agent in the list: id, hostname, address and status,
/// separated by bars.
pub open spec fn spec_agent_line(a: AgentView) -> Seq<char> {
    a.id + spec_separator() + a.hostname + spec_separator() + a.ip + spec_separator() + a.status
}

/// The eight labelled lines of an agent's data sheet.
pub open spec fn spec_detail_lines(a: AgentView) -> Seq<Seq<char>> {
    seq![
        "ID: "@ + a.id,
        "Hostname: "@ + a.hostname,
        "IP: "@ + a.ip,
        "OS: "@ + spec_or_placeholder(a.os),
        "Status: "@ + a.status,
        "Last seen: "@ + spec_or_placeholder(a.last_seen),
        "Location: "@ + spec_or_placeholder(a.location),
        "Note: "@ + spec_or_placeholder(a.note),
    ]
}

/// The data sheet for a selection: the selected agent's eight lines, or
/// the one line that tells that nothing is selected.
pub open spec fn spec_detail(agents: Seq<AgentRecord>, selected: Option<usize>) -> Seq<Seq<char>> {
    match selected {
        Some(i) if i < agents.len() => spec_detail_lines(agents[i as int]@),
        _ => seq![spec_no_selection()],
    }
}

/// The lines by their characters.
pub open spec fn spec_texts(lines: Seq<String>) -> Seq<Seq<char>> {
    Seq::new(lines.len(), |i: int| lines[i]@)
}

/// The rows of the list are the agents' lines in the agents' order, and
/// exactly the selected one is highlighted.
pub open spec fn spec_rows_match(
    rows: Seq<ListRow>,
    agents: Seq<AgentRecord>,
    selected: Option<usize>,
) -> bool {
    &&& rows.len() == agents.len()
    &&& forall|i: int|
        0 <= i < rows.len() ==> {
            &&& (#[trigger] rows[i]).text@ == spec_agent_line(agents[i]@)
            &&& rows[i].highlighted == (selected == Some(i as usize))
        }
}

impl Frame {
    /// The regions of the five panels.
    pub open spec fn spec_layout(self) -> DashboardLayout {
        DashboardLayout {
            logo: self.logo.region,
            menu: self.menu.region,
            agent_list: self.agent_list.region,
            detail: self.detail.region,
            status: self.status.region,
        }
    }

    /// The frame shows the given agents and selection in the given panels.
    pub open spec fn spec_shows(
        self,
        agents: Seq<AgentRecord>,
        selected: Option<usize>,
        layout: DashboardLayout,
    ) -> bool {
        &&& self.logo.region == layout.logo
        &&& self.logo.title@ == "Logo RAT"@
        &&& self.menu.region == layout.menu
        &&& self.menu.title@ == "Menu"@
        &&& self.agent_list.region == layout.agent_list
        &&& self.agent_list.title@ == "Agent list"@
        &&& spec_rows_match(self.agent_list.rows@, agents, selected)
        &&& self.detail.region == layout.detail
        &&& self.detail.title@ == "Datasheet / Map"@
        &&& spec_texts(self.detail.lines@) == spec_detail(agents, selected)
        &&& self.status.region == layout.status
        &&& self.status.title@ == "Terminal connecté"@
    }
}

/// The text of an optional field, or the placeholder where it is absent.
pub fn or_placeholder(field: &Option<String>) -> (text: &str)
    ensures
        text@ == spec_or_placeholder(crate::agent::spec_text(*field)),
{
    match field {
        Some(s) => s.as_str(),
        None => "-",
    }
}

/// Formats the line of one agent in the list.
pub fn agent_line(agent: &AgentRecord) -> (line: String)
    ensures
        line@ == spec_agent_line(agent@),
{
    let mut line = String::from_str(agent.id.as_str());
    line.append(" | ");
    line.append(agent.hostname.as_str());
    line.append(" | ");
    line.append(agent.ip.as_str());
    line.append(" | ");
    line.append(agent.status.as_str());
    line
}

fn labelled(label: &str, value: &str) -> (line: String)
    ensures
        line@ == label@ + value@,
{
    let mut line = String::from_str(label);
    line.append(value);
    line
}

/// Formats the data sheet of one agent: eight labelled lines, with the
/// placeholder for each optional field that is absent.
pub fn detail_lines(agent: &AgentRecord) -> (lines: Vec<String>)
    ensures
        spec_texts(lines@) == spec_detail_lines(agent@),
        lines@.len() == 8,
{
    let mut lines: Vec<String> = Vec::new();
    lines.push(labelled("ID: ", agent.id.as_str()));
    lines.push(labelled("Hostname: ", agent.hostname.as_str()));
    lines.push(labelled("IP: ", agent.ip.as_str()));
    lines.push(labelled("OS: ", or_placeholder(&agent.os)));
    lines.push(labelled("Status: ", agent.status.as_str()));
    lines.push(labelled("Last seen: ", or_placeholder(&agent.last_seen)));
    lines.push(labelled("Location: ", or_placeholder(&agent.location)));
    lines.push(labelled("Note: ", or_placeholder(&agent.note)));
    assert(spec_texts(lines@) =~= spec_detail_lines(agent@));
    lines
}

/// Formats the rows of the agent list, one for each agent and in the
/// agents' order, with the selected one highlighted.
pub fn list_rows(agents: &Vec<AgentRecord>, selected: Option<usize>) -> (rows: Vec<ListRow>)
    ensures
        spec_rows_match(rows@, agents@, selected),
        agents@.len() == 0 ==> rows@.len() == 0,
{
    let mut rows: Vec<ListRow> = Vec::new();
    let mut i: usize = 0;
    while i < agents.len()
        invariant
            i <= agents.len(),
            rows@.len() == i,
            forall|k: int|
                0 <= k < i ==> {
                    &&& (#[trigger] rows@[k]).text@ == spec_agent_line(agents@[k]@)
                    &&& rows@[k].highlighted == (selected == Some(k as usize))
                },
        decreases agents.len() - i,
    {
        let highlighted = match selected {
            Some(s) => s == i,
            None => false,
        };
        rows.push(ListRow { text: agent_line(&agents[i]), highlighted });
        i = i + 1;
    }
    rows
}

/// Formats the data sheet for a selection. With nothing selected, as with
/// an empty list, it is the one line that says so; no agent is looked up
/// outside the list.
pub fn detail(agents: &Vec<AgentRecord>, selected: Option<usize>) -> (lines: Vec<String>)
    ensures
        spec_texts(lines@) == spec_detail(agents@, selected),
        lines@.len() == spec_detail(agents@, selected).len(),
        agents@.len() == 0 ==> spec_texts(lines@) == seq![spec_no_selection()],
{
    let known = match selected {
        Some(i) => i < agents.len(),
        None => false,
    };
    if known {
        detail_lines(&agents[selected.unwrap()])
    } else {
        let mut lines: Vec<String> = Vec::new();
        lines.push(String::from_str("Aucun agent sélectionné"));
        assert(spec_texts(lines@) =~= seq![spec_no_selection()]);
        lines
    }
}

fn panel(region: Region, title: &str) -> (p: Panel)
    ensures
        p.region == region,
        p.title@ == title@,
{
    Panel { region, title: String::from_str(title) }
}

/// Composes the frame for one tick from the agents, the selection and the
/// panels computed for the current terminal size.
pub fn render(agents: &Vec<AgentRecord>, selected: Option<usize>, layout: DashboardLayout) -> (frame:
    Frame)
    ensures
        frame.spec_shows(agents@, selected, layout),
        agents@.len() == 0 ==> frame.agent_list.rows@.len() == 0 && spec_texts(frame.detail.lines@)
            == seq![spec_no_selection()],
{
    Frame {
        logo: panel(layout.logo, "Logo RAT"),
        menu: panel(layout.menu, "Menu"),
        agent_list: ListPanel {
            region: layout.agent_list,
            title: String::from_str("Agent list"),
            rows: list_rows(agents, selected),
        },
        detail: TextPanel {
            region: layout.detail,
            title: String::from_str("Datasheet / Map"),
            lines: detail(agents, selected),
        },
        status: panel(layout.status, "Terminal connecté"),
    }
}

} // verus!
