//! The dashboard state: the fetched instances, the filtered list on display,
//! the selection cursor, the mode, and the two edit buffers.
//!
//! Every operation is stated over [`UiView`], the mathematical model of the
//! state, by a spec function that gives the model after the operation.

use vstd::prelude::*;
use crate::instance::{matches_filter, Instance};

verus! {

/// What the user asks the provider to do with one instance.
#[derive(Debug, Clone, Copy, PartialEq, Eq, Structural)]
pub enum Action {
    Start,
    Stop,
    Restart,
    Delete,
    Ssh,
    /// No action at all.
    Noop,
}

/// The input context. Exactly one is active at any time.
#[derive(Debug, Clone, Copy, PartialEq, Eq, Structural)]
pub enum Mode {
    Normal,
    FilterInput,
    SearchInput,
    HelpPopup,
    DetailsPopup,
}

/// The keys that the dashboard tells apart.
#[derive(Debug, Clone, Copy, PartialEq, Eq, Structural)]
pub enum KeyCode {
    Char(char),
    Backspace,
    Enter,
    Esc,
    Up,
    Down,
    /// Any key without a meaning here.
    Other,
}

/// One key press: the key and whether Control was held.
#[derive(Debug, Clone, Copy, PartialEq, Eq, Structural)]
pub struct Key {
    pub code: KeyCode,
    pub ctrl: bool,
}

/// The model of the dashboard state.
pub struct UiView {
    /// The instances of the last successful fetch, in the provider's order.
    pub fetched: Seq<Instance>,
    /// The instances on display: those of `fetched` that match the filter.
    pub instances: Seq<Instance>,
    /// The cursor into `instances`.
    pub selected_index: nat,
    pub mode: Mode,
    pub filter_text: Seq<char>,
    pub search_text: Seq<char>,
    /// An action that waits for the user's confirmation.
    pub confirmation: Option<Action>,
    pub project_id: Seq<char>,
    pub region: Seq<char>,
    pub cli_version: Seq<char>,
}

/// The model of a dashboard that has fetched nothing yet.
pub open spec fn empty_ui() -> UiView {
    UiView {
        fetched: Seq::<Instance>::empty(),
        instances: Seq::<Instance>::empty(),
        selected_index: 0,
        mode: Mode::Normal,
        filter_text: Seq::<char>::empty(),
        search_text: Seq::<char>::empty(),
        confirmation: Option::<Action>::None,
        project_id: Seq::<char>::empty(),
        region: Seq::<char>::empty(),
        cli_version: Seq::<char>::empty(),
    }
}

/// The filter predicate for one query, as a function of the instance.
pub open spec fn filter_pred(query: Seq<char>) -> spec_fn(Instance) -> bool {
    |inst: Instance| matches_filter(inst, query)
}

/// The instances on display for a query: those fetched that match it, in the
/// order in which they were fetched.
pub open spec fn shown(fetched: Seq<Instance>, query: Seq<char>) -> Seq<Instance> {
    fetched.filter(filter_pred(query))
}

/// The cursor brought into range: past the end of a list that is not empty
/// it goes to the last element, otherwise it stays.
pub open spec fn clamped(selected: nat, len: nat) -> nat {
    if len > 0 && selected >= len {
        (len - 1) as nat
    } else {
        selected
    }
}

/// What holds of the model in every state that the operations reach.
pub open spec fn view_wf(v: UiView) -> bool {
    &&& v.instances == shown(v.fetched, v.filter_text)
    &&& v.instances.len() > 0 ==> v.selected_index < v.instances.len()
    &&& v.mode != Mode::FilterInput ==> v.filter_text.len() == 0
    &&& v.mode != Mode::SearchInput ==> v.search_text.len() == 0
}

/// The model with a new filter text: the list is derived anew from all the
/// fetched instances, and the cursor is brought into range.
pub open spec fn with_filter(v: UiView, query: Seq<char>) -> UiView {
    let list = shown(v.fetched, query);
    UiView {
        filter_text: query,
        instances: list,
        selected_index: clamped(v.selected_index, list.len()),
        ..v
    }
}

/// The model after entering `mode`: the buffer of every other mode is
/// cleared, so unless `mode` is `FilterInput` the full list is back.
pub open spec fn entered(v: UiView, mode: Mode) -> UiView {
    let query = if mode == Mode::FilterInput {
        v.filter_text
    } else {
        Seq::<char>::empty()
    };
    let search = if mode == Mode::SearchInput {
        v.search_text
    } else {
        Seq::<char>::empty()
    };
    UiView { mode: mode, search_text: search, ..with_filter(v, query) }
}

/// The model after new instances arrive: they replace the fetched ones
/// wholesale, the filter is applied to them, the cursor is brought into range.
pub open spec fn with_instances(v: UiView, fetched: Seq<Instance>) -> UiView {
    let list = shown(fetched, v.filter_text);
    UiView {
        fetched: fetched,
        instances: list,
        selected_index: clamped(v.selected_index, list.len()),
        ..v
    }
}

/// The model after the help key: the help popup closes if it is open and
/// opens otherwise.
pub open spec fn help_toggled(v: UiView) -> UiView {
    entered(
        v,
        if v.mode == Mode::HelpPopup {
            Mode::Normal
        } else {
            Mode::HelpPopup
        },
    )
}

/// The model after the filter key.
pub open spec fn filter_toggled(v: UiView) -> UiView {
    entered(
        v,
        if v.mode == Mode::FilterInput {
            Mode::Normal
        } else {
            Mode::FilterInput
        },
    )
}

/// The model after the search key.
pub open spec fn search_toggled(v: UiView) -> UiView {
    entered(
        v,
        if v.mode == Mode::SearchInput {
            Mode::Normal
        } else {
            Mode::SearchInput
        },
    )
}

/// The model after the details key: the popup opens only over a list that
/// is not empty.
pub open spec fn details_shown(v: UiView) -> UiView {
    if v.instances.len() > 0 {
        entered(v, Mode::DetailsPopup)
    } else {
        v
    }
}

/// The model after the close key: back to `Normal`, both buffers cleared,
/// nothing left to confirm.
pub open spec fn popup_closed(v: UiView) -> UiView {
    UiView { confirmation: Option::<Action>::None, ..entered(v, Mode::Normal) }
}

/// The model after one step up, from the first element round to the last.
pub open spec fn moved_previous(v: UiView) -> UiView {
    if v.instances.len() == 0 {
        v
    } else if v.selected_index > 0 {
        UiView { selected_index: (v.selected_index - 1) as nat, ..v }
    } else {
        UiView { selected_index: (v.instances.len() - 1) as nat, ..v }
    }
}

/// The model after one step down, from the last element round to the first.
pub open spec fn moved_next(v: UiView) -> UiView {
    if v.instances.len() == 0 {
        v
    } else if v.selected_index + 1 < v.instances.len() {
        UiView { selected_index: v.selected_index + 1, ..v }
    } else {
        UiView { selected_index: 0, ..v }
    }
}

/// A text without its last character; the empty text stays empty.
pub open spec fn without_last(s: Seq<char>) -> Seq<char> {
    if s.len() > 0 {
        s.drop_last()
    } else {
        s
    }
}

/// The model after a key goes to the active buffer. A character is appended
/// and Backspace removes the last one; in `FilterInput` the list is derived
/// anew at once. Other keys, and every key outside the two input modes,
/// change nothing.
pub open spec fn input_applied(v: UiView, key: Key) -> UiView {
    match (v.mode, key.code) {
        (Mode::FilterInput, KeyCode::Char(c)) => with_filter(v, v.filter_text.push(c)),
        (Mode::FilterInput, KeyCode::Backspace) => with_filter(v, without_last(v.filter_text)),
        (Mode::SearchInput, KeyCode::Char(c)) => UiView {
            search_text: v.search_text.push(c),
            ..v
        },
        (Mode::SearchInput, KeyCode::Backspace) => UiView {
            search_text: without_last(v.search_text),
            ..v
        },
        _ => v,
    }
}

/// The identifier under the cursor, if the list is not empty.
pub open spec fn selected_id(v: UiView) -> Option<Seq<char>> {
    if v.instances.len() == 0 {
        Option::<Seq<char>>::None
    } else {
        Option::Some(v.instances[v.selected_index as int].id@)
    }
}

/// The dashboard state. It keeps every fetched instance and, beside them,
/// the positions of those that the filter lets through.
pub struct UiState {
    all: Vec<Instance>,
    visible: Vec<usize>,
    selected_index: usize,
    mode: Mode,
    filter: String,
    search: String,
    confirmation: Option<Action>,
    project_id: String,
    region: String,
    cli_version: String,
}

spec fn picked(all: Seq<Instance>, visible: Seq<usize>) -> Seq<Instance> {
    Seq::new(visible.len(), |k: int| all[visible[k] as int])
}

/// Filtering one more fetched instance appends it to the list if it matches
/// the query and leaves the list as it is otherwise.
proof fn lemma_shown_step(all: Seq<Instance>, query: Seq<char>, i: int)
    requires
        0 <= i < all.len(),
    ensures
        shown(all.take(i + 1), query) == if matches_filter(all[i], query) {
            shown(all.take(i), query).push(all[i])
        } else {
            shown(all.take(i), query)
        },
{
    reveal(Seq::filter);
    assert(all.take(i + 1).drop_last() =~= all.take(i));
}

impl View for UiState {
    type V = UiView;

    closed spec fn view(&self) -> UiView {
        UiView {
            fetched: self.all@,
            instances: picked(self.all@, self.visible@),
            selected_index: self.selected_index as nat,
            mode: self.mode,
            filter_text: self.filter@,
            search_text: self.search@,
            confirmation: self.confirmation,
            project_id: self.project_id@,
            region: self.region@,
            cli_version: self.cli_version@,
        }
    }
}

impl UiState {
    /// Every kept position lies within the fetched instances.
    pub closed spec fn rep_ok(&self) -> bool {
        forall|k: int|
            0 <= k < self.visible@.len() ==> (#[trigger] self.visible@[k]) < self.all@.len()
    }

    /// The state is well formed: the representation is sound and the model
    /// satisfies [`view_wf`].
    pub open spec fn wf(&self) -> bool {
        self.rep_ok() && view_wf(self@)
    }

    /// An empty dashboard in `Normal` mode.
    pub fn new() -> (r: Self)
        ensures
            r.wf(),
            r@ == empty_ui(),
    {
        let r = UiState {
            all: Vec::new(),
            visible: Vec::new(),
            selected_index: 0,
            mode: Mode::Normal,
            filter: String::new(),
            search: String::new(),
            confirmation: None,
            project_id: String::new(),
            region: String::new(),
            cli_version: String::new(),
        };
        proof {
            reveal(Seq::filter);
            assert(r@.instances =~= shown(r@.fetched, r@.filter_text));
            assert(r@.fetched =~= Seq::<Instance>::empty());
            assert(r@.instances =~= Seq::<Instance>::empty());
            assert(r@.filter_text =~= Seq::<char>::empty());
            assert(r@.search_text =~= Seq::<char>::empty());
            assert(r@.project_id =~= Seq::<char>::empty());
            assert(r@.region =~= Seq::<char>::empty());
            assert(r@.cli_version =~= Seq::<char>::empty());
        }
        r
    }

    /// Sets the three descriptive texts. Nothing else changes.
    pub fn update_cloud_info(&mut self, project_id: String, region: String, cli_version: String)
        requires
            old(self).wf(),
        ensures
            final(self).wf(),
            final(self)@ == (UiView {
                project_id: project_id@,
                region: region@,
                cli_version: cli_version@,
                ..old(self)@
            }),
    {
        self.project_id = project_id;
        self.region = region;
        self.cli_version = cli_version;
    }

    /// Replaces the fetched instances wholesale, applies the filter to the
    /// new ones, and brings the cursor into range.
    pub fn update_instances(&mut self, instances: Vec<Instance>)
        requires
            old(self).wf(),
        ensures
            final(self).wf(),
            final(self)@ == with_instances(old(self)@, instances@),
    {
        self.all = instances;
        self.apply_filter();
    }

    /// Derives the list on display anew from all the fetched instances and
    /// the filter text, then brings the cursor into range.
    fn apply_filter(&mut self)
        ensures
            final(self).rep_ok(),
            final(self)@ == with_filter(old(self)@, old(self)@.filter_text),
    {
        let every = self.filter.as_str().is_empty();
        let lowered = self.filter.as_str().to_lowercase();
        let mut kept: Vec<usize> = Vec::new();
        let n: usize = self.all.len();
        let mut i: usize = 0;
        while i < n
            invariant
                n == self.all@.len(),
                i <= n,
                every == (self.filter@.len() == 0),
                lowered@ == crate::text::lowercase(self.filter@),
                forall|k: int| 0 <= k < kept@.len() ==> (#[trigger] kept@[k]) < i,
                picked(self.all@, kept@) == shown(self.all@.take(i as int), self.filter@),
            decreases n - i,
        {
            let hit = every || self.all[i].holds(lowered.as_str());
            proof {
                lemma_shown_step(self.all@, self.filter@, i as int);
                if hit {
                    assert(picked(self.all@, kept@.push(i)) =~= picked(self.all@, kept@).push(
                        self.all@[i as int],
                    ));
                }
            }
            if hit {
                kept.push(i);
            }
            i += 1;
        }
        proof {
            assert(self.all@.take(n as int) =~= self.all@);
        }
        self.visible = kept;
        self.ensure_valid_selection();
    }

    /// Brings the cursor into range where the list is not empty.
    fn ensure_valid_selection(&mut self)
        ensures
            final(self).rep_ok() == old(self).rep_ok(),
            final(self)@ == (UiView {
                selected_index: clamped(old(self)@.selected_index, old(self)@.instances.len()),
                ..old(self)@
            }),
    {
        if self.visible.len() > 0 && self.selected_index >= self.visible.len() {
            self.selected_index = self.visible.len() - 1;
        }
    }

    /// Enters `mode`, which leaves every other mode and clears its buffer.
    fn enter(&mut self, mode: Mode)
        requires
            old(self).wf(),
        ensures
            final(self).wf(),
            final(self)@ == entered(old(self)@, mode),
    {
        if mode != Mode::FilterInput {
            self.filter.clear();
        }
        if mode != Mode::SearchInput {
            self.search.clear();
        }
        self.mode = mode;
        self.apply_filter();
    }

    /// Opens the help popup, or closes it if it is open.
    pub fn toggle_help(&mut self)
        requires
            old(self).wf(),
        ensures
            final(self).wf(),
            final(self)@ == help_toggled(old(self)@),
    {
        if self.mode == Mode::HelpPopup {
            self.enter(Mode::Normal);
        } else {
            self.enter(Mode::HelpPopup);
        }
    }

    /// Enters filter input, or leaves it if it is active; leaving clears the
    /// filter text and brings the full list back.
    pub fn toggle_filter_mode(&mut self)
        requires
            old(self).wf(),
        ensures
            final(self).wf(),
            final(self)@ == filter_toggled(old(self)@),
    {
        if self.mode == Mode::FilterInput {
            self.enter(Mode::Normal);
        } else {
            self.enter(Mode::FilterInput);
        }
    }

    /// Enters search input, or leaves it if it is active; leaving clears the
    /// search text.
    pub fn toggle_search_mode(&mut self)
        requires
            old(self).wf(),
        ensures
            final(self).wf(),
            final(self)@ == search_toggled(old(self)@),
    {
        if self.mode == Mode::SearchInput {
            self.enter(Mode::Normal);
        } else {
            self.enter(Mode::SearchInput);
        }
    }

    /// Whether keys go to one of the two edit buffers.
    pub fn is_input_mode(&self) -> (r: bool)
        ensures
            r == (self@.mode == Mode::FilterInput || self@.mode == Mode::SearchInput),
    {
        self.mode == Mode::FilterInput || self.mode == Mode::SearchInput
    }

    /// The active mode.
    pub fn mode(&self) -> (r: Mode)
        ensures
            r == self@.mode,
    {
        self.mode
    }

    /// Hands a key to the active edit buffer.
    pub fn handle_input(&mut self, key: Key)
        requires
            old(self).wf(),
        ensures
            final(self).wf(),
            final(self)@ == input_applied(old(self)@, key),
    {
        match key.code {
            KeyCode::Char(c) => {
                if self.mode == Mode::FilterInput {
                    self.filter.push(c);
                    self.apply_filter();
                } else if self.mode == Mode::SearchInput {
                    self.search.push(c);
                }
            },
            KeyCode::Backspace => {
                if self.mode == Mode::FilterInput {
                    let _ = self.filter.pop();
                    self.apply_filter();
                } else if self.mode == Mode::SearchInput {
                    let _ = self.search.pop();
                }
            },
            _ => {},
        }
    }

    /// Opens the details popup if there is an instance to show.
    pub fn show_details(&mut self)
        requires
            old(self).wf(),
        ensures
            final(self).wf(),
            final(self)@ == details_shown(old(self)@),
    {
        if self.visible.len() > 0 {
            self.enter(Mode::DetailsPopup);
        }
    }

    /// Closes whatever popup or input mode is open.
    pub fn close_popup(&mut self)
        requires
            old(self).wf(),
        ensures
            final(self).wf(),
            final(self)@ == popup_closed(old(self)@),
    {
        self.enter(Mode::Normal);
        self.confirmation = None;
    }

    /// Moves the cursor one element up, from the first round to the last.
    pub fn previous_item(&mut self)
        requires
            old(self).wf(),
        ensures
            final(self).wf(),
            final(self)@ == moved_previous(old(self)@),
    {
        if self.visible.len() > 0 {
            if self.selected_index > 0 {
                self.selected_index -= 1;
            } else {
                self.selected_index = self.visible.len() - 1;
            }
        }
    }

    /// Moves the cursor one element down, from the last round to the first.
    pub fn next_item(&mut self)
        requires
            old(self).wf(),
        ensures
            final(self).wf(),
            final(self)@ == moved_next(old(self)@),
    {
        if self.visible.len() > 0 {
            if self.selected_index + 1 < self.visible.len() {
                self.selected_index += 1;
            } else {
                self.selected_index = 0;
            }
        }
    }

    /// Whether the cursor points at an instance.
    pub fn has_valid_selection(&self) -> (r: bool)
        ensures
            r == (self@.instances.len() > 0 && self@.selected_index < self@.instances.len()),
    {
        self.visible.len() > 0 && self.selected_index < self.visible.len()
    }

    /// Puts the cursor on the first element.
    pub fn reset_selection(&mut self)
        requires
            old(self).wf(),
        ensures
            final(self).wf(),
            final(self)@ == (UiView { selected_index: 0, ..old(self)@ }),
    {
        self.selected_index = 0;
    }

    /// The identifier of the instance under the cursor, or `None` over an
    /// empty list.
    pub fn selected_instance_id(&self) -> (r: Option<String>)
        requires
            self.wf(),
        ensures
            r is Some == (self@.instances.len() > 0),
            r is Some ==> Some(r->0@) == selected_id(self@),
            r is None ==> selected_id(self@) is None,
    {
        if self.visible.len() == 0 {
            None
        } else {
            let at = self.visible[self.selected_index];
            Some(self.all[at].id.clone())
        }
    }

    /// Takes the action that waits for confirmation, if there is one, and
    /// says whether there was.
    pub fn confirm_action(&mut self) -> (r: bool)
        requires
            old(self).wf(),
        ensures
            final(self).wf(),
            r == (old(self)@.confirmation is Some),
            final(self)@ == (UiView { confirmation: Option::<Action>::None, ..old(self)@ }),
    {
        let pending = self.confirmation.is_some();
        self.confirmation = None;
        pending
    }

    /// How many instances are on display.
    pub fn instance_count(&self) -> (r: usize)
        ensures
            r == self@.instances.len(),
    {
        self.visible.len()
    }

    /// How many instances the last fetch brought, the filter aside.
    pub fn fetched_count(&self) -> (r: usize)
        ensures
            r == self@.fetched.len(),
    {
        self.all.len()
    }

    /// The instance at a position of the list on display.
    pub fn instance(&self, index: usize) -> (r: &Instance)
        requires
            self.wf(),
            index < self@.instances.len(),
        ensures
            *r == self@.instances[index as int],
    {
        &self.all[self.visible[index]]
    }

    /// The instance under the cursor, or `None` over an empty list.
    pub fn selected_instance(&self) -> (r: Option<&Instance>)
        requires
            self.wf(),
        ensures
            r is Some == (self@.instances.len() > 0),
            r is Some ==> *r->0 == self@.instances[self@.selected_index as int],
    {
        if self.visible.len() == 0 {
            None
        } else {
            Some(&self.all[self.visible[self.selected_index]])
        }
    }

    /// Where the cursor stands.
    pub fn selected_index(&self) -> (r: usize)
        ensures
            r == self@.selected_index,
    {
        self.selected_index
    }

    /// The filter text.
    pub fn filter_text(&self) -> (r: &str)
        ensures
            r@ == self@.filter_text,
    {
        self.filter.as_str()
    }

    /// The search text.
    pub fn search_text(&self) -> (r: &str)
        ensures
            r@ == self@.search_text,
    {
        self.search.as_str()
    }

    /// The project that is shown.
    pub fn project_id(&self) -> (r: &str)
        ensures
            r@ == self@.project_id,
    {
        self.project_id.as_str()
    }

    /// The region that is shown.
    pub fn region(&self) -> (r: &str)
        ensures
            r@ == self@.region,
    {
        self.region.as_str()
    }

    /// The version of the provider's tool that is shown.
    pub fn cli_version(&self) -> (r: &str)
        ensures
            r@ == self@.cli_version,
    {
        self.cli_version.as_str()
    }
}

} // verus!
