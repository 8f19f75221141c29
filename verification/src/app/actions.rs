//! Commands, the chords bound to them, and the registry that finds the
//! command of a chord.

use vstd::prelude::*;
use vstd::string::StringExecFns;

use crate::inputs::key::{KeyCode, KeyEvent, KeyModifiers, CONTROL, NONE};
use crate::utils::key_display::{key_event_text, KeyEventWrapper};
use crate::utils::text::{joined, texts, vec_to_string};

verus! {

/// What the user can ask for.
#[derive(Clone, Copy, Debug, PartialEq, Eq, Structural)]
pub enum Action {
    Quit,
    ToggleCurrent,
    DeleteSelectedEntries,
    Up,
    Down,
    EditPath,
    EditFilter,
    UnfocusTextArea,
}

/// The chords bound to a command, in the order in which the help panel
/// lists them.
pub open spec fn bound_keys(action: Action) -> Seq<KeyEvent> {
    match action {
        Action::Quit => seq![
            KeyEvent::pressed(KeyCode::Char('c'), CONTROL),
            KeyEvent::pressed(KeyCode::Char('q'), NONE),
        ],
        Action::ToggleCurrent => seq![KeyEvent::pressed(KeyCode::Char(' '), NONE)],
        Action::DeleteSelectedEntries => seq![KeyEvent::pressed(KeyCode::Char('d'), NONE)],
        Action::Up => seq![KeyEvent::pressed(KeyCode::Up, NONE)],
        Action::Down => seq![KeyEvent::pressed(KeyCode::Down, NONE)],
        Action::EditPath => seq![KeyEvent::pressed(KeyCode::Char('p'), NONE)],
        Action::EditFilter => seq![KeyEvent::pressed(KeyCode::Char('f'), NONE)],
        Action::UnfocusTextArea => seq![KeyEvent::pressed(KeyCode::Esc, NONE)],
    }
}

/// The name of a command.
pub open spec fn action_name(action: Action) -> Seq<char> {
    match action {
        Action::Quit => "Quit"@,
        Action::ToggleCurrent => "ToggleCurrent"@,
        Action::DeleteSelectedEntries => "DeleteSelectedEntries"@,
        Action::Up => "Up"@,
        Action::Down => "Down"@,
        Action::EditPath => "EditPath"@,
        Action::EditFilter => "EditFilter"@,
        Action::UnfocusTextArea => "UnfocusTextArea"@,
    }
}

/// Every command, in the order in which a chord is looked up.
pub open spec fn all_actions() -> Seq<Action> {
    seq![
        Action::Quit,
        Action::ToggleCurrent,
        Action::DeleteSelectedEntries,
        Action::Up,
        Action::Down,
        Action::EditPath,
        Action::EditFilter,
        Action::UnfocusTextArea,
    ]
}

fn press(code: KeyCode, modifiers: u8) -> (event: KeyEvent)
    ensures
        event == KeyEvent::pressed(code, modifiers),
{
    KeyEvent::new(code, KeyModifiers { bits: modifiers })
}

impl Action {
    /// The chords bound to the command.
    pub fn keys(&self) -> (keys: Vec<KeyEvent>)
        ensures
            keys@ == bound_keys(*self),
    {
        let keys = match self {
            Action::Quit => vec![press(KeyCode::Char('c'), CONTROL), press(KeyCode::Char('q'), NONE)],
            Action::ToggleCurrent => vec![press(KeyCode::Char(' '), NONE)],
            Action::DeleteSelectedEntries => vec![press(KeyCode::Char('d'), NONE)],
            Action::Up => vec![press(KeyCode::Up, NONE)],
            Action::Down => vec![press(KeyCode::Down, NONE)],
            Action::EditPath => vec![press(KeyCode::Char('p'), NONE)],
            Action::EditFilter => vec![press(KeyCode::Char('f'), NONE)],
            Action::UnfocusTextArea => vec![press(KeyCode::Esc, NONE)],
        };
        assert(keys@ =~= bound_keys(*self));
        keys
    }

    /// The name of the command.
    pub fn to_string(&self) -> (name: String)
        ensures
            name@ == action_name(*self),
    {
        match self {
            Action::Quit => String::from_str("Quit"),
            Action::ToggleCurrent => String::from_str("ToggleCurrent"),
            Action::DeleteSelectedEntries => String::from_str("DeleteSelectedEntries"),
            Action::Up => String::from_str("Up"),
            Action::Down => String::from_str("Down"),
            Action::EditPath => String::from_str("EditPath"),
            Action::EditFilter => String::from_str("EditFilter"),
            Action::UnfocusTextArea => String::from_str("UnfocusTextArea"),
        }
    }

    /// Every command, in the order in which a chord is looked up.
    pub fn all() -> (all: Vec<Action>)
        ensures
            all@ == all_actions(),
    {
        let all = vec![
            Action::Quit,
            Action::ToggleCurrent,
            Action::DeleteSelectedEntries,
            Action::Up,
            Action::Down,
            Action::EditPath,
            Action::EditFilter,
            Action::UnfocusTextArea,
        ];
        assert(all@ =~= all_actions());
        all
    }
}

/// Whether `action` is one of `actions` and `key` is bound to it.
pub open spec fn answers(actions: Seq<Action>, action: Action, key: KeyEvent) -> bool {
    actions.contains(action) && bound_keys(action).contains(key)
}

/// The command that `key` asks for among `actions`: the first of all
/// commands that is one of them and has `key` bound to it.
pub open spec fn found_in(actions: Seq<Action>, key: KeyEvent, result: Option<Action>) -> bool {
    match result {
        Some(action) => exists|at: int|
            0 <= at < all_actions().len() && #[trigger] all_actions()[at] == action && answers(
                actions,
                action,
                key,
            ) && forall|earlier: int|
                0 <= earlier < at ==> !answers(actions, #[trigger] all_actions()[earlier], key),
        None => forall|action: Action| !answers(actions, action, key),
    }
}

/// The first of all commands from `at` on that is one of `actions` and has
/// `key` bound to it.
pub open spec fn command_from(actions: Seq<Action>, key: KeyEvent, at: int) -> Option<Action>
    decreases all_actions().len() - at,
{
    if at < 0 || at >= all_actions().len() {
        None
    } else if answers(actions, all_actions()[at], key) {
        Some(all_actions()[at])
    } else {
        command_from(actions, key, at + 1)
    }
}

/// The command that `key` asks for among `actions`, if any.
pub open spec fn command_for(actions: Seq<Action>, key: KeyEvent) -> Option<Action> {
    command_from(actions, key, 0)
}

/// The commands of the current mode.
#[derive(Clone, Debug)]
pub struct Actions(pub Vec<Action>);

impl View for Actions {
    type V = Seq<Action>;

    open spec fn view(&self) -> Seq<Action> {
        self.0@
    }
}

fn holds_action(actions: &Vec<Action>, action: Action) -> (held: bool)
    ensures
        held == actions@.contains(action),
{
    let mut i: usize = 0;
    while i < actions.len()
        invariant
            i <= actions.len(),
            forall|j: int| 0 <= j < i ==> actions@[j] != action,
        decreases actions.len() - i,
    {
        if actions[i] == action {
            return true;
        }
        i += 1;
    }
    false
}

fn holds_key(keys: &Vec<KeyEvent>, key: KeyEvent) -> (held: bool)
    ensures
        held == keys@.contains(key),
{
    let mut i: usize = 0;
    while i < keys.len()
        invariant
            i <= keys.len(),
            forall|j: int| 0 <= j < i ==> keys@[j] != key,
        decreases keys.len() - i,
    {
        if keys[i] == key {
            return true;
        }
        i += 1;
    }
    false
}

impl Default for Actions {
    /// No command at all.
    fn default() -> (registry: Actions)
        ensures
            registry@ == Seq::<Action>::empty(),
    {
        Actions(Vec::new())
    }
}

impl From<Vec<Action>> for Actions {
    /// These commands as they are, unchecked.
    fn from(actions: Vec<Action>) -> (registry: Actions) {
        Actions(actions)
    }
}

impl vstd::std_specs::convert::FromSpecImpl<Vec<Action>> for Actions {
    open spec fn obeys_from_spec() -> bool {
        true
    }

    open spec fn from_spec(actions: Vec<Action>) -> Actions {
        Actions(actions)
    }
}

impl Actions {
    /// The command that `key` asks for, if it asks for one of these.
    pub fn find(&self, key: KeyEvent) -> (result: Option<Action>)
        ensures
            result == command_for(self@, key),
            found_in(self@, key, result),
    {
        let all = Action::all();
        let mut at: usize = 0;
        while at < all.len()
            invariant
                at <= all.len(),
                all@ == all_actions(),
                command_for(self@, key) == command_from(self@, key, at as int),
                forall|earlier: int| 0 <= earlier < at ==> !answers(self@, #[trigger] all_actions()[earlier], key),
            decreases all.len() - at,
        {
            let action = all[at];
            if holds_action(&self.0, action) && holds_key(&action.keys(), key) {
                return Some(action);
            }
            at += 1;
        }
        proof {
            assert forall|action: Action| !answers(self@, action, key) by {
                lemma_all_actions_complete(action);
            }
        }
        None
    }

    /// The commands, in the order in which they were given.
    pub fn slice(&self) -> (actions: &[Action])
        ensures
            actions@ == self@,
    {
        self.0.as_slice()
    }
}

/// Every command is one of all commands.
pub proof fn lemma_all_actions_complete(action: Action)
    ensures
        exists|at: int| 0 <= at < all_actions().len() && #[trigger] all_actions()[at] == action,
{
    match action {
        Action::Quit => assert(all_actions()[0] == action),
        Action::ToggleCurrent => assert(all_actions()[1] == action),
        Action::DeleteSelectedEntries => assert(all_actions()[2] == action),
        Action::Up => assert(all_actions()[3] == action),
        Action::Down => assert(all_actions()[4] == action),
        Action::EditPath => assert(all_actions()[5] == action),
        Action::EditFilter => assert(all_actions()[6] == action),
        Action::UnfocusTextArea => assert(all_actions()[7] == action),
    }
}

/// The claims that commands lay to chords: each chord of each command with
/// that command, in the order of the commands and of their chords.
pub open spec fn claims_of(actions: Seq<Action>) -> Seq<(KeyEvent, Action)>
    decreases actions.len(),
{
    if actions.len() == 0 {
        Seq::empty()
    } else {
        claims_of(actions.drop_last()) + bound_keys(actions.last()).map_values(
            |key: KeyEvent| (key, actions.last()),
        )
    }
}

/// The commands that claim `key`, each once, in the order of their first
/// claims.
pub open spec fn claimants(claims: Seq<(KeyEvent, Action)>, key: KeyEvent) -> Seq<Action>
    decreases claims.len(),
{
    if claims.len() == 0 {
        Seq::empty()
    } else {
        let earlier = claimants(claims.drop_last(), key);
        if claims.last().0 == key && !earlier.contains(claims.last().1) {
            earlier.push(claims.last().1)
        } else {
            earlier
        }
    }
}

/// Whether no chord is claimed by two different commands.
pub open spec fn conflict_free(claims: Seq<(KeyEvent, Action)>) -> bool {
    forall|p: int, q: int|
        0 <= p < claims.len() && 0 <= q < claims.len() && (#[trigger] claims[p]).0 == (
        #[trigger] claims[q]).0 ==> claims[p].1 == claims[q].1
}

/// Whether the claim at `at` is the first one to its chord.
pub open spec fn is_first_claim(claims: Seq<(KeyEvent, Action)>, at: int) -> bool {
    forall|earlier: int| 0 <= earlier < at ==> (#[trigger] claims[earlier]).0 != claims[at].0
}

/// The names of commands.
pub open spec fn action_names(actions: Seq<Action>) -> Seq<Seq<char>> {
    actions.map_values(|action: Action| action_name(action))
}

/// The line that reports a chord claimed by `actions`.
pub open spec fn conflict_line(key: KeyEvent, actions: Seq<Action>) -> Seq<char> {
    "Conflict key "@ + key_event_text(key) + " with actions "@ + joined(action_names(actions), ", "@)
}

/// One line for each chord that is claimed more than once and whose first
/// claim is among the first `upto`, in the order of those first claims.
pub open spec fn conflict_lines(claims: Seq<(KeyEvent, Action)>, upto: int) -> Seq<Seq<char>>
    decreases upto,
{
    if upto <= 0 {
        Seq::empty()
    } else {
        let key = claims[upto - 1].0;
        let earlier = conflict_lines(claims, upto - 1);
        if is_first_claim(claims, upto - 1) && claimants(claims, key).len() > 1 {
            earlier.push(conflict_line(key, claimants(claims, key)))
        } else {
            earlier
        }
    }
}

/// The report of all conflicts: the lines joined by `; `.
pub open spec fn conflict_report(claims: Seq<(KeyEvent, Action)>) -> Seq<char> {
    joined(conflict_lines(claims, claims.len() as int), "; "@)
}

fn is_first(claims: &Vec<(KeyEvent, Action)>, at: usize) -> (first: bool)
    requires
        at < claims.len(),
    ensures
        first == is_first_claim(claims@, at as int),
{
    let mut earlier: usize = 0;
    while earlier < at
        invariant
            earlier <= at < claims.len(),
            forall|j: int| 0 <= j < earlier ==> (#[trigger] claims@[j]).0 != claims@[at as int].0,
        decreases at - earlier,
    {
        if claims[earlier].0 == claims[at].0 {
            return false;
        }
        earlier += 1;
    }
    true
}

fn claimant_names(claims: &Vec<(KeyEvent, Action)>, key: KeyEvent) -> (names: Vec<String>)
    ensures
        texts(names@) == action_names(claimants(claims@, key)),
{
    let mut holders: Vec<Action> = Vec::new();
    let mut at: usize = 0;
    assert(holders@ =~= claimants(claims@.take(0), key));
    while at < claims.len()
        invariant
            at <= claims.len(),
            holders@ == claimants(claims@.take(at as int), key),
        decreases claims.len() - at,
    {
        proof {
            assert(claims@.take(at + 1).drop_last() =~= claims@.take(at as int));
        }
        if claims[at].0 == key && !holds_action(&holders, claims[at].1) {
            holders.push(claims[at].1);
        }
        at += 1;
    }
    assert(claims@.take(claims.len() as int) =~= claims@);
    let mut names: Vec<String> = Vec::new();
    let mut i: usize = 0;
    assert(texts(names@) =~= action_names(holders@.take(0)));
    while i < holders.len()
        invariant
            i <= holders.len(),
            texts(names@) == action_names(holders@.take(i as int)),
        decreases holders.len() - i,
    {
        let ghost before = names@;
        names.push(holders[i].to_string());
        assert(texts(names@) =~= texts(before).push(action_name(holders@[i as int])));
        assert(action_names(holders@.take(i + 1)) =~= action_names(holders@.take(i as int)).push(
            action_name(holders@[i as int]),
        ));
        i += 1;
    }
    assert(holders@.take(holders.len() as int) =~= holders@);
    names
}

/// Looks for chords that two different commands claim. The error reports
/// each of them on a line of its own, with the commands that claim it,
/// each named once.
pub fn check_claims(claims: &Vec<(KeyEvent, Action)>) -> (result: Result<(), String>)
    ensures
        result is Ok <==> conflict_free(claims@),
        result matches Err(report) ==> report@ == conflict_report(claims@),
{
    let mut lines: Vec<String> = Vec::new();
    let mut at: usize = 0;
    assert(texts(lines@) =~= conflict_lines(claims@, 0));
    while at < claims.len()
        invariant
            at <= claims.len(),
            texts(lines@) == conflict_lines(claims@, at as int),
        decreases claims.len() - at,
    {
        let key = claims[at].0;
        if is_first(claims, at) {
            let names = claimant_names(claims, key);
            assert(names@.len() == texts(names@).len());
            if names.len() > 1 {
                let mut line = String::from_str("Conflict key ");
                line.append(KeyEventWrapper(key).to_string().as_str());
                line.append(" with actions ");
                line.append(vec_to_string(&names, ", ").as_str());
                let ghost before = lines@;
                lines.push(line);
                assert(texts(lines@) =~= texts(before).push(line@));
            }
        }
        at += 1;
    }
    proof {
        lemma_lines_tell_conflicts(claims@);
        assert(lines@.len() == texts(lines@).len());
    }
    if lines.len() == 0 {
        Ok(())
    } else {
        Err(vec_to_string(&lines, "; "))
    }
}

/// The claims that the commands lay to their chords.
pub fn claims(actions: &[Action]) -> (claims: Vec<(KeyEvent, Action)>)
    ensures
        claims@ == claims_of(actions@),
{
    let mut claims: Vec<(KeyEvent, Action)> = Vec::new();
    let mut at: usize = 0;
    assert(claims@ =~= claims_of(actions@.take(0)));
    while at < actions.len()
        invariant
            at <= actions.len(),
            claims@ == claims_of(actions@.take(at as int)),
        decreases actions.len() - at,
    {
        let action = actions[at];
        let keys = action.keys();
        let ghost before = claims@;
        let mut k: usize = 0;
        while k < keys.len()
            invariant
                k <= keys.len(),
                claims@ == before + keys@.take(k as int).map_values(|key: KeyEvent| (key, action)),
            decreases keys.len() - k,
        {
            claims.push((keys[k], action));
            assert(claims@ =~= before + keys@.take(k + 1).map_values(|key: KeyEvent| (key, action)));
            k += 1;
        }
        proof {
            assert(keys@.take(keys.len() as int) =~= keys@);
            assert(actions@.take(at + 1).drop_last() =~= actions@.take(at as int));
        }
        at += 1;
    }
    assert(actions@.take(actions.len() as int) =~= actions@);
    claims
}

/// Checks that no chord is bound to two different commands among these.
/// The error reports each such chord on a line of its own, with the
/// commands that claim it.
pub fn check_action_conflicts(actions: &[Action]) -> (result: Result<(), String>)
    ensures
        result is Ok <==> conflict_free(claims_of(actions@)),
        result matches Err(report) ==> report@ == conflict_report(claims_of(actions@)),
{
    let claims = claims(actions);
    check_claims(&claims)
}

/// What the error of [`Actions::checked`] says before the report.
pub open spec fn creation_error(report: Seq<char>) -> Seq<char> {
    "Error while creating actions: "@ + report
}

impl Actions {
    /// The registry of these commands, or the report of the chords that
    /// two different ones of them claim.
    pub fn checked(actions: Vec<Action>) -> (result: Result<Actions, String>)
        ensures
            result is Ok <==> conflict_free(claims_of(actions@)),
            result matches Ok(registry) ==> registry@ == actions@,
            result matches Err(error) ==> error@ == creation_error(conflict_report(claims_of(actions@))),
    {
        match check_action_conflicts(actions.as_slice()) {
            Ok(()) => Ok(Actions(actions)),
            Err(report) => {
                let mut error = String::from_str("Error while creating actions: ");
                error.append(report.as_str());
                Err(error)
            },
        }
    }

    /// The registry of these commands. No chord is claimed by two
    /// different ones of them, whichever they are and however often each
    /// is given.
    pub fn from_iter(actions: Vec<Action>) -> (registry: Actions)
        ensures
            registry@ == actions@,
            conflict_free(claims_of(registry@)),
    {
        proof {
            lemma_actions_conflict_free(actions@);
        }
        Actions(actions)
    }
}

proof fn lemma_claimants_hold(claims: Seq<(KeyEvent, Action)>, key: KeyEvent, action: Action)
    ensures
        claimants(claims, key).contains(action) <==> exists|p: int|
            0 <= p < claims.len() && #[trigger] claims[p] == (key, action),
    decreases claims.len(),
{
    if claims.len() > 0 {
        let rest = claims.drop_last();
        let earlier = claimants(rest, key);
        lemma_claimants_hold(rest, key, action);
        if claimants(claims, key).contains(action) {
            if earlier.contains(action) {
                let p = choose|p: int| 0 <= p < rest.len() && #[trigger] rest[p] == (key, action);
                assert(claims[p] == (key, action));
            } else {
                let i = choose|i: int|
                    0 <= i < claimants(claims, key).len() && claimants(claims, key)[i] == action;
                assert(claims[claims.len() - 1] == (key, action));
            }
        }
        if exists|p: int| 0 <= p < claims.len() && #[trigger] claims[p] == (key, action) {
            let p = choose|p: int| 0 <= p < claims.len() && #[trigger] claims[p] == (key, action);
            if p < rest.len() {
                assert(rest[p] == (key, action));
                assert(earlier.contains(action));
                let i = choose|i: int| 0 <= i < earlier.len() && earlier[i] == action;
                assert(claimants(claims, key)[i] == action);
            } else if earlier.contains(action) {
                let i = choose|i: int| 0 <= i < earlier.len() && earlier[i] == action;
                assert(claimants(claims, key)[i] == action);
            } else {
                assert(claimants(claims, key)[earlier.len() as int] == action);
            }
        }
    }
}

proof fn lemma_claimants_distinct(claims: Seq<(KeyEvent, Action)>, key: KeyEvent)
    ensures
        claimants(claims, key).no_duplicates(),
    decreases claims.len(),
{
    if claims.len() > 0 {
        lemma_claimants_distinct(claims.drop_last(), key);
    }
}

/// No chord is claimed by two different commands exactly where every
/// chord has at most one claimant.
pub proof fn lemma_conflict_free_by_claimants(claims: Seq<(KeyEvent, Action)>)
    ensures
        conflict_free(claims) <==> forall|key: KeyEvent| #[trigger] claimants(claims, key).len() <= 1,
{
    if conflict_free(claims) {
        assert forall|key: KeyEvent| #[trigger] claimants(claims, key).len() <= 1 by {
            let held = claimants(claims, key);
            if held.len() >= 2 {
                lemma_claimants_distinct(claims, key);
                lemma_claimants_hold(claims, key, held[0]);
                lemma_claimants_hold(claims, key, held[1]);
                assert(held.contains(held[0]));
                assert(held.contains(held[1]));
                let p = choose|p: int| 0 <= p < claims.len() && #[trigger] claims[p] == (key, held[0]);
                let q = choose|q: int| 0 <= q < claims.len() && #[trigger] claims[q] == (key, held[1]);
                assert(claims[p].0 == claims[q].0);
            }
        }
    }
    if forall|key: KeyEvent| #[trigger] claimants(claims, key).len() <= 1 {
        assert forall|p: int, q: int|
            0 <= p < claims.len() && 0 <= q < claims.len() && (#[trigger] claims[p]).0 == (
            #[trigger] claims[q]).0 implies claims[p].1 == claims[q].1 by {
            let key = claims[p].0;
            let held = claimants(claims, key);
            lemma_claimants_hold(claims, key, claims[p].1);
            lemma_claimants_hold(claims, key, claims[q].1);
            assert(claims[p] == (key, claims[p].1));
            assert(claims[q] == (key, claims[q].1));
            assert(held.len() <= 1);
            let i = choose|i: int| 0 <= i < held.len() && held[i] == claims[p].1;
            let j = choose|j: int| 0 <= j < held.len() && held[j] == claims[q].1;
        }
    }
}

proof fn lemma_claimed(claims: Seq<(KeyEvent, Action)>, at: int)
    requires
        0 <= at < claims.len(),
    ensures
        claimants(claims, claims[at].0).len() > 0,
    decreases claims.len(),
{
    if at < claims.len() - 1 {
        lemma_claimed(claims.drop_last(), at);
    }
}

proof fn lemma_first_claim(claims: Seq<(KeyEvent, Action)>, key: KeyEvent)
    requires
        claimants(claims, key).len() > 0,
    ensures
        exists|at: int| 0 <= at < claims.len() && (#[trigger] claims[at]).0 == key && is_first_claim(claims, at),
    decreases claims.len(),
{
    let rest = claims.drop_last();
    if claimants(rest, key).len() > 0 {
        lemma_first_claim(rest, key);
        let at = choose|at: int| 0 <= at < rest.len() && (#[trigger] rest[at]).0 == key && is_first_claim(rest, at);
        assert(claims[at].0 == key);
        assert(is_first_claim(claims, at)) by {
            assert forall|earlier: int| 0 <= earlier < at implies (#[trigger] claims[earlier]).0 != claims[at].0 by {
                assert(rest[earlier].0 != rest[at].0);
            }
        }
    } else {
        let at = claims.len() - 1;
        assert(claims[at].0 == key);
        assert forall|earlier: int| 0 <= earlier < at implies (#[trigger] claims[earlier]).0 != key by {
            lemma_claimed(rest, earlier);
        }
    }
}

proof fn lemma_lines_grow(claims: Seq<(KeyEvent, Action)>, from: int, upto: int)
    requires
        0 <= from <= upto,
    ensures
        conflict_lines(claims, from).len() <= conflict_lines(claims, upto).len(),
    decreases upto - from,
{
    if from < upto {
        lemma_lines_grow(claims, from, upto - 1);
    }
}

proof fn lemma_no_lines(claims: Seq<(KeyEvent, Action)>, upto: int)
    requires
        forall|key: KeyEvent| #[trigger] claimants(claims, key).len() <= 1,
    ensures
        conflict_lines(claims, upto).len() == 0,
    decreases upto,
{
    if upto > 0 {
        lemma_no_lines(claims, upto - 1);
        assert(claimants(claims, claims[upto - 1].0).len() <= 1);
    }
}

/// There is a line to report exactly where two different commands claim
/// one chord.
pub proof fn lemma_lines_tell_conflicts(claims: Seq<(KeyEvent, Action)>)
    ensures
        conflict_lines(claims, claims.len() as int).len() == 0 <==> conflict_free(claims),
{
    lemma_conflict_free_by_claimants(claims);
    if conflict_free(claims) {
        lemma_no_lines(claims, claims.len() as int);
    } else {
        let key = choose|key: KeyEvent| !(#[trigger] claimants(claims, key).len() <= 1);
        lemma_first_claim(claims, key);
        let at = choose|at: int| 0 <= at < claims.len() && (#[trigger] claims[at]).0 == key && is_first_claim(claims, at);
        assert(conflict_lines(claims, at + 1).len() > 0);
        lemma_lines_grow(claims, at + 1, claims.len() as int);
    }
}

/// No chord is bound to two commands.
pub proof fn lemma_one_owner(a: Action, b: Action, key: KeyEvent)
    requires
        bound_keys(a).contains(key),
        bound_keys(b).contains(key),
    ensures
        a == b,
{
    let i = choose|i: int| 0 <= i < bound_keys(a).len() && bound_keys(a)[i] == key;
    let j = choose|j: int| 0 <= j < bound_keys(b).len() && bound_keys(b)[j] == key;
    assert(bound_keys(a)[i] == bound_keys(b)[j]);
}

proof fn lemma_claims_are_bound(actions: Seq<Action>, p: int)
    requires
        0 <= p < claims_of(actions).len(),
    ensures
        bound_keys(claims_of(actions)[p].1).contains(claims_of(actions)[p].0),
    decreases actions.len(),
{
    let rest = actions.drop_last();
    if p < claims_of(rest).len() {
        lemma_claims_are_bound(rest, p);
    } else {
        let k = p - claims_of(rest).len();
        assert(claims_of(actions)[p] == (bound_keys(actions.last())[k], actions.last()));
    }
}

/// Whatever commands are given, and however often, no chord is claimed
/// by two different ones of them.
pub proof fn lemma_actions_conflict_free(actions: Seq<Action>)
    ensures
        conflict_free(claims_of(actions)),
{
    let claims = claims_of(actions);
    assert forall|p: int, q: int|
        0 <= p < claims.len() && 0 <= q < claims.len() && (#[trigger] claims[p]).0 == (
        #[trigger] claims[q]).0 implies claims[p].1 == claims[q].1 by {
        lemma_claims_are_bound(actions, p);
        lemma_claims_are_bound(actions, q);
        lemma_one_owner(claims[p].1, claims[q].1, claims[p].0);
    }
}

/// No two different commands of a registry share a chord.
pub proof fn lemma_no_shared_chord(actions: Seq<Action>, i: int, j: int, key: KeyEvent)
    requires
        0 <= i < actions.len(),
        0 <= j < actions.len(),
        actions[i] != actions[j],
    ensures
        !(bound_keys(actions[i]).contains(key) && bound_keys(actions[j]).contains(key)),
{
    if bound_keys(actions[i]).contains(key) && bound_keys(actions[j]).contains(key) {
        lemma_one_owner(actions[i], actions[j], key);
    }
}

proof fn lemma_command_from_answers(actions: Seq<Action>, key: KeyEvent, at: int)
    ensures
        command_from(actions, key, at) matches Some(action) ==> answers(actions, action, key),
    decreases all_actions().len() - at,
{
    if 0 <= at < all_actions().len() && !answers(actions, all_actions()[at], key) {
        lemma_command_from_answers(actions, key, at + 1);
    }
}

/// The command that a chord asks for is one of the commands, and the
/// chord is bound to it.
pub proof fn lemma_command_answers(actions: Seq<Action>, key: KeyEvent)
    ensures
        command_for(actions, key) matches Some(action) ==> answers(actions, action, key),
{
    lemma_command_from_answers(actions, key, 0);
}

} // verus!
