//! Running a note as an action: the key its result is kept under, the busy
//! label, and the approval cards the run's tool events build.

use crate::text::{concatenated, push_str, same_text};
use vstd::prelude::*;

verus! {

/// The setting under which a note's last action result is kept.
pub fn action_key(note_id: &str) -> (r: String)
    ensures
        r@ == "note_action:"@ + note_id@,
{
    concatenated("note_action:", note_id)
}

/// What the busy button reads while a run is in flight: the agent that was
/// picked, then the tool it is on; either may be missing, and with neither
/// the generic label shows.
pub open spec fn busy_label_spec(agent: Option<Seq<char>>, tool: Option<Seq<char>>, generic: Seq<char>) -> Seq<char> {
    match (agent, tool) {
        (Some(a), Some(t)) => a + " · "@ + t,
        (Some(a), None) => a,
        (None, Some(t)) => t,
        (None, None) => generic,
    }
}

/// The busy button's text.
pub fn busy_label(agent: Option<String>, tool: Option<String>, generic: &str) -> (r: String)
    ensures
        r@ == busy_label_spec(crate::text::opt_text(agent), crate::text::opt_text(tool), generic@),
{
    match (agent, tool) {
        (Some(a), Some(t)) => {
            let mut out = concatenated(a.as_str(), " · ");
            push_str(&mut out, t.as_str());
            out
        },
        (Some(a), None) => a,
        (None, Some(t)) => t,
        (None, None) => String::from_str(generic),
    }
}

/// One approval card of the current run: the proposal (`view`, found again
/// by `id`), its status, and why an edit of it was refused.
#[derive(Debug)]
pub struct Card<V, S> {
    pub id: String,
    pub view: V,
    pub status: S,
    pub edit_error: Option<String>,
}

/// What the run reports while it works.
#[derive(Debug)]
pub enum ToolEvent<V, S> {
    /// A tool started; `label` is its name as the user reads it.
    Started { label: String },
    Finished,
    /// A write waits for approval.
    Proposal { id: String, view: V },
    ProposalResolved { id: String, status: S },
    EditRejected { id: String, reason: String },
    /// A reminder was scheduled: it shows under the note, with no card.
    ReminderScheduled,
}

/// The first card with this id.
pub open spec fn first_card<V, S>(cards: Seq<Card<V, S>>, id: Seq<char>) -> Option<int>
    decreases cards.len(),
{
    if cards.len() == 0 {
        None
    } else {
        match first_card(cards.drop_last(), id) {
            Some(k) => Some(k),
            None => if cards.last().id@ == id {
                Some(cards.len() - 1)
            } else {
                None
            },
        }
    }
}

proof fn lemma_first_card_bounds<V, S>(cards: Seq<Card<V, S>>, id: Seq<char>)
    ensures
        first_card(cards, id) matches Some(k) ==> 0 <= k < cards.len() && cards[k].id@ == id
            && forall|j: int| 0 <= j < k ==> cards[j].id@ != id,
        first_card(cards, id) is None ==> forall|j: int| 0 <= j < cards.len() ==> cards[j].id@ != id,
    decreases cards.len(),
{
    if cards.len() > 0 {
        lemma_first_card_bounds(cards.drop_last(), id);
        assert forall|j: int| 0 <= j < cards.len() - 1 implies cards[j] == cards.drop_last()[j] by {}
    }
}

/// Where the card with this id sits, if any.
fn find_card<V, S>(cards: &Vec<Card<V, S>>, id: &str) -> (r: Option<usize>)
    ensures
        match first_card(cards@, id@) {
            Some(k) => r == Some(k as usize),
            None => r is None,
        },
        r matches Some(i) ==> i < cards@.len(),
{
    proof {
        lemma_first_card_bounds(cards@, id@);
    }
    let mut i: usize = 0;
    while i < cards.len()
        invariant
            i <= cards@.len(),
            forall|j: int| 0 <= j < i ==> cards@[j].id@ != id@,
            first_card(cards@, id@) matches Some(k) ==> i <= k,
            first_card(cards@, id@) matches Some(k) ==> 0 <= k < cards@.len() && cards@[k].id@ == id@
                && forall|j: int| 0 <= j < k ==> cards@[j].id@ != id@,
            first_card(cards@, id@) is None ==> forall|j: int| 0 <= j < cards@.len() ==> cards@[j].id@ != id@,
        decreases cards@.len() - i,
    {
        if same_text(cards[i].id.as_str(), id) {
            return Some(i);
        }
        i += 1;
    }
    None
}

/// `after` is `before` with only the card at `k` changed, and that card
/// still the same proposal.
pub open spec fn only_card_changed<V, S>(before: Seq<Card<V, S>>, after: Seq<Card<V, S>>, k: int) -> bool {
    &&& after.len() == before.len()
    &&& forall|j: int| 0 <= j < before.len() && j != k ==> after[j] == before[j]
    &&& after[k].id == before[k].id
    &&& after[k].view == before[k].view
}

/// Sets the status of the first card with this id and clears its edit
/// error; nothing when there is none.
pub fn set_status<V, S>(cards: &mut Vec<Card<V, S>>, id: &str, status: S)
    ensures
        match first_card(old(cards)@, id@) {
            Some(k) => only_card_changed(old(cards)@, final(cards)@, k) && final(cards)@[k].status == status
                && final(cards)@[k].edit_error is None,
            None => final(cards)@ == old(cards)@,
        },
{
    proof {
        lemma_first_card_bounds(cards@, id@);
    }
    match find_card(cards, id) {
        Some(k) => {
            let ghost before = cards@;
            let mut c = cards.remove(k);
            c.status = status;
            c.edit_error = None;
            let ghost changed = c;
            cards.insert(k, c);
            proof {
                before.remove_ensures(k as int);
                before.remove(k as int).insert_ensures(k as int, changed);
                assert(cards@ == before.remove(k as int).insert(k as int, changed));
                assert(cards@[k as int] == changed);
                assert forall|j: int| 0 <= j < before.len() && j != k implies cards@[j] == before[j] by {
                    if j > k {
                        assert(cards@[j] == before.remove(k as int)[j - 1]);
                    }
                }
            }
        },
        None => {},
    }
}

/// Records the reason an edit of the first card with this id was refused;
/// nothing when there is none.
pub fn set_edit_error<V, S>(cards: &mut Vec<Card<V, S>>, id: &str, reason: String)
    ensures
        match first_card(old(cards)@, id@) {
            Some(k) => only_card_changed(old(cards)@, final(cards)@, k) && final(cards)@[k].status
                == old(cards)@[k].status && final(cards)@[k].edit_error == Some(reason),
            None => final(cards)@ == old(cards)@,
        },
{
    proof {
        lemma_first_card_bounds(cards@, id@);
    }
    match find_card(cards, id) {
        Some(k) => {
            let ghost before = cards@;
            let mut c = cards.remove(k);
            c.edit_error = Some(reason);
            let ghost changed = c;
            cards.insert(k, c);
            proof {
                before.remove_ensures(k as int);
                before.remove(k as int).insert_ensures(k as int, changed);
                assert(cards@ == before.remove(k as int).insert(k as int, changed));
                assert(cards@[k as int] == changed);
                assert forall|j: int| 0 <= j < before.len() && j != k implies cards@[j] == before[j] by {
                    if j > k {
                        assert(cards@[j] == before.remove(k as int)[j - 1]);
                    }
                }
            }
        },
        None => {},
    }
}

/// Applies one of the run's events to the cards and the tool line: a
/// started tool shows its label and a finished one clears it; a proposal
/// adds a pending card at the end; a resolution or a refused edit updates
/// the card it names.
pub fn apply_tool_event<V, S>(
    cards: &mut Vec<Card<V, S>>,
    tool_status: &mut Option<String>,
    event: ToolEvent<V, S>,
    pending: S,
)
    ensures
        match event {
            ToolEvent::Started { label } => final(cards)@ == old(cards)@ && *final(tool_status) == Some(label),
            ToolEvent::Finished => final(cards)@ == old(cards)@ && *final(tool_status) is None,
            ToolEvent::Proposal { id, view } => *final(tool_status) == *old(tool_status)
                && final(cards)@ == old(cards)@.push(Card { id, view, status: pending, edit_error: None }),
            ToolEvent::ProposalResolved { id, status } => *final(tool_status) == *old(tool_status)
                && match first_card(old(cards)@, id@) {
                Some(k) => only_card_changed(old(cards)@, final(cards)@, k) && final(cards)@[k].status == status
                    && final(cards)@[k].edit_error is None,
                None => final(cards)@ == old(cards)@,
            },
            ToolEvent::EditRejected { id, reason } => *final(tool_status) == *old(tool_status)
                && match first_card(old(cards)@, id@) {
                Some(k) => only_card_changed(old(cards)@, final(cards)@, k) && final(cards)@[k].status
                    == old(cards)@[k].status && final(cards)@[k].edit_error == Some(reason),
                None => final(cards)@ == old(cards)@,
            },
            ToolEvent::ReminderScheduled => final(cards)@ == old(cards)@ && *final(tool_status) == *old(tool_status),
        },
{
    match event {
        ToolEvent::Started { label } => {
            *tool_status = Some(label);
        },
        ToolEvent::Finished => {
            *tool_status = None;
        },
        ToolEvent::Proposal { id, view } => {
            cards.push(Card { id, view, status: pending, edit_error: None });
        },
        ToolEvent::ProposalResolved { id, status } => {
            set_status(cards, id.as_str(), status);
        },
        ToolEvent::EditRejected { id, reason } => {
            set_edit_error(cards, id.as_str(), reason);
        },
        ToolEvent::ReminderScheduled => {},
    }
}

/// The run button stays tied to an actionable text; while a run is in
/// flight or a result is shown it stays too.
pub fn shows_run_button(actionable: bool, running: bool, has_result: bool) -> (r: bool)
    ensures
        r == (actionable || running || has_result),
{
    actionable || running || has_result
}

/// The run button offers a rerun once a result is kept.
pub fn run_label_key(has_result: bool) -> (r: &'static str)
    ensures
        r@ == (if has_result { "note-rerun-action"@ } else { "note-run-action"@ }),
{
    if has_result {
        "note-rerun-action"
    } else {
        "note-run-action"
    }
}

} // verus!

verus! {

/// The state of the note's action run: whether one runs, its last answer
/// and error, its approval cards, the tool at work and the agent shown on
/// the busy button.
#[derive(Debug)]
pub struct ActionRun<V, S> {
    pub running: bool,
    pub result: Option<String>,
    pub error: Option<String>,
    pub cards: Vec<Card<V, S>>,
    pub tool_status: Option<String>,
    pub running_agent: Option<String>,
}

/// Starts a run with `agent` (`None`: the note's own action) unless one
/// already runs, in which case nothing changes. A started run forgets the
/// last error, the cards and the tool status, and keeps the last answer
/// on screen until the new one arrives.
pub fn launch_run<V, S>(run: &mut ActionRun<V, S>, agent: Option<String>) -> (started: bool)
    ensures
        started == !old(run).running,
        old(run).running ==> *final(run) == *old(run),
        !old(run).running ==> {
            &&& final(run).running
            &&& final(run).error is None
            &&& final(run).cards@.len() == 0
            &&& final(run).tool_status is None
            &&& final(run).running_agent == agent
            &&& final(run).result == old(run).result
        },
{
    if run.running {
        return false;
    }
    run.running = true;
    run.error = None;
    run.cards.clear();
    run.tool_status = None;
    run.running_agent = agent;
    true
}

/// Ends a run with its outcome: the answer becomes the result, a failure
/// the error; the run stops and the busy button goes back to rest.
pub fn finish_run<V, S>(run: &mut ActionRun<V, S>, outcome: Result<String, String>)
    ensures
        !final(run).running,
        final(run).tool_status is None,
        final(run).running_agent is None,
        final(run).cards == old(run).cards,
        match outcome {
            Ok(answer) => final(run).result == Some(answer) && final(run).error == old(run).error,
            Err(e) => final(run).error == Some(e) && final(run).result == old(run).result,
        },
{
    match outcome {
        Ok(answer) => run.result = Some(answer),
        Err(e) => run.error = Some(e),
    }
    run.tool_status = None;
    run.running_agent = None;
    run.running = false;
}

/// Ends a run that could not start because the new note could not be
/// stored: the reason becomes the error and the run stops.
pub fn abort_run<V, S>(run: &mut ActionRun<V, S>, reason: String)
    ensures
        !final(run).running,
        final(run).error == Some(reason),
        final(run).running_agent is None,
        final(run).result == old(run).result,
        final(run).cards == old(run).cards,
        final(run).tool_status == old(run).tool_status,
{
    run.error = Some(reason);
    run.running = false;
    run.running_agent = None;
}

} // verus!

verus! {

/// How a run executes the note: through the agent picked in the palette
/// (found again by its launch command), or as the note's own action.
#[derive(Debug)]
pub enum RunRoute {
    Agent { launch_command: String },
    NoteAction,
}

/// The route of a run: an agent when one was picked, the note's own action
/// otherwise.
pub fn run_route(agent_launch_command: Option<String>) -> (r: RunRoute)
    ensures
        match agent_launch_command {
            Some(c) => r == RunRoute::Agent { launch_command: c },
            None => r is NoteAction,
        },
{
    match agent_launch_command {
        Some(c) => RunRoute::Agent { launch_command: c },
        None => RunRoute::NoteAction,
    }
}

/// A picked agent that can no longer be activated fails the run with the
/// "unavailable" message; one that can is run.
pub fn agent_resolved<A>(activation: Option<A>, unavailable: String) -> (r: Result<A, String>)
    ensures
        match activation {
            Some(a) => r == Ok::<A, String>(a),
            None => r == Err::<A, String>(unavailable),
        },
{
    match activation {
        Some(a) => Ok(a),
        None => Err(unavailable),
    }
}

} // verus!
