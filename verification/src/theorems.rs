//! What holds of the dashboard model in general, proved from the
//! definitions of its transitions.

use vstd::prelude::*;
use crate::app::{after_key, after_refresh, AppView};
use crate::instance::Instance;
use crate::text::last_segment;
use crate::ui::{
    entered, filter_pred, input_applied, moved_next, moved_previous, search_toggled, shown,
    view_wf, with_filter, Key, KeyCode, Mode, UiView,
};

verus! {

/// With an empty filter text every fetched instance is on display, in the
/// order in which it was fetched.
pub proof fn lemma_empty_filter_shows_all(fetched: Seq<Instance>)
    ensures
        shown(fetched, Seq::<char>::empty()) == fetched,
    decreases fetched.len(),
{
    reveal(Seq::filter);
    let query = Seq::<char>::empty();
    if fetched.len() == 0 {
        assert(shown(fetched, query) =~= fetched);
    } else {
        lemma_empty_filter_shows_all(fetched.drop_last());
        assert(filter_pred(query)(fetched.last()));
        assert(fetched.drop_last().push(fetched.last()) =~= fetched);
    }
}

/// A new filter text keeps the model well formed, provided the model is in
/// filter input or the text is empty.
pub proof fn lemma_with_filter_wf(v: UiView, query: Seq<char>)
    requires
        view_wf(v),
        v.mode == Mode::FilterInput || query.len() == 0,
    ensures
        view_wf(with_filter(v, query)),
{
}

/// Entering a mode keeps the model well formed and makes that mode the
/// active one. Unless the mode is filter input, the filter text is then
/// empty and the full list is on display; unless it is search input, the
/// search text is empty.
pub proof fn lemma_entered(v: UiView, mode: Mode)
    requires
        view_wf(v),
    ensures
        view_wf(entered(v, mode)),
        entered(v, mode).mode == mode,
        entered(v, mode).fetched == v.fetched,
        mode != Mode::FilterInput ==> entered(v, mode).filter_text.len() == 0 && entered(
            v,
            mode,
        ).instances == v.fetched,
        mode != Mode::SearchInput ==> entered(v, mode).search_text.len() == 0,
{
    if mode != Mode::FilterInput {
        lemma_empty_filter_shows_all(v.fetched);
    }
}

/// Entering search input while a filter is being typed clears the filter
/// text and brings the full list back, and search input is then the one
/// active mode.
pub proof fn lemma_search_leaves_filter(v: UiView)
    requires
        view_wf(v),
        v.mode == Mode::FilterInput,
    ensures
        search_toggled(v).mode == Mode::SearchInput,
        search_toggled(v).filter_text.len() == 0,
        search_toggled(v).instances == v.fetched,
        view_wf(search_toggled(v)),
{
    lemma_entered(v, Mode::SearchInput);
}

/// A walk over the list: `true` is one step down, `false` one step up.
pub open spec fn navigated(v: UiView, steps: Seq<bool>) -> UiView
    decreases steps.len(),
{
    if steps.len() == 0 {
        v
    } else {
        let before = navigated(v, steps.drop_last());
        if steps.last() {
            moved_next(before)
        } else {
            moved_previous(before)
        }
    }
}

/// Over a list that is not empty, the cursor points at an instance after
/// every step of every walk, and a walk changes nothing but the cursor.
pub proof fn lemma_navigation_keeps_selection(v: UiView, steps: Seq<bool>)
    requires
        view_wf(v),
        v.instances.len() > 0,
    ensures
        navigated(v, steps) == (UiView { selected_index: navigated(v, steps).selected_index, ..v }),
        navigated(v, steps).selected_index < v.instances.len(),
        forall|k: int|
            0 <= k <= steps.len() ==> (#[trigger] navigated(v, steps.take(k))).selected_index
                < v.instances.len(),
    decreases steps.len(),
{
    if steps.len() == 0 {
        assert forall|k: int| 0 <= k <= steps.len() implies (#[trigger] navigated(
            v,
            steps.take(k),
        )).selected_index < v.instances.len() by {
            assert(steps.take(k) =~= steps);
        }
    } else {
        let front = steps.drop_last();
        lemma_navigation_keeps_selection(v, front);
        assert forall|k: int| 0 <= k <= steps.len() implies (#[trigger] navigated(
            v,
            steps.take(k),
        )).selected_index < v.instances.len() by {
            if k == steps.len() {
                assert(steps.take(k) =~= steps);
            } else {
                assert(steps.take(k) =~= front.take(k));
            }
        }
    }
}

/// One step from the first element up arrives at the last, and one step
/// from the last element down arrives at the first.
pub proof fn lemma_wraparound(v: UiView)
    requires
        v.instances.len() > 0,
    ensures
        v.selected_index == 0 ==> moved_previous(v).selected_index == v.instances.len() - 1,
        v.selected_index == v.instances.len() - 1 ==> moved_next(v).selected_index == 0,
        v.instances.len() == 1 && v.selected_index == 0 ==> moved_next(v) == v && moved_previous(v)
            == v,
{
}

/// The key that types one character.
pub open spec fn char_key(c: char) -> Key {
    Key { code: KeyCode::Char(c), ctrl: false }
}

/// The key that deletes one character.
pub open spec fn backspace_key() -> Key {
    Key { code: KeyCode::Backspace, ctrl: false }
}

/// The model after a text is typed into the active buffer, key by key.
pub open spec fn typed(v: UiView, text: Seq<char>) -> UiView
    decreases text.len(),
{
    if text.len() == 0 {
        v
    } else {
        input_applied(typed(v, text.drop_last()), char_key(text.last()))
    }
}

/// The model after Backspace is pressed `n` times.
pub open spec fn erased(v: UiView, n: nat) -> UiView
    decreases n,
{
    if n == 0 {
        v
    } else {
        input_applied(erased(v, (n - 1) as nat), backspace_key())
    }
}

/// Typing into the filter appends the text to the filter text and shows
/// exactly the fetched instances that match the whole of it.
pub proof fn lemma_typed_filter(v: UiView, text: Seq<char>)
    requires
        view_wf(v),
        v.mode == Mode::FilterInput,
    ensures
        view_wf(typed(v, text)),
        typed(v, text).mode == Mode::FilterInput,
        typed(v, text).fetched == v.fetched,
        typed(v, text).filter_text == v.filter_text + text,
        typed(v, text).instances == shown(v.fetched, v.filter_text + text),
    decreases text.len(),
{
    if text.len() == 0 {
        assert(v.filter_text + text =~= v.filter_text);
    } else {
        lemma_typed_filter(v, text.drop_last());
        assert((v.filter_text + text.drop_last()).push(text.last()) =~= v.filter_text + text);
    }
}

/// Deleting from the filter removes that many characters from the end of
/// the filter text and shows exactly the fetched instances that match what
/// is left.
pub proof fn lemma_erased_filter(v: UiView, n: nat)
    requires
        view_wf(v),
        v.mode == Mode::FilterInput,
        n <= v.filter_text.len(),
    ensures
        view_wf(erased(v, n)),
        erased(v, n).mode == Mode::FilterInput,
        erased(v, n).fetched == v.fetched,
        erased(v, n).filter_text == v.filter_text.take(v.filter_text.len() - n),
        erased(v, n).instances == shown(v.fetched, v.filter_text.take(v.filter_text.len() - n)),
    decreases n,
{
    if n == 0 {
        assert(v.filter_text.take(v.filter_text.len() - n) =~= v.filter_text);
    } else {
        lemma_erased_filter(v, (n - 1) as nat);
        let len = v.filter_text.len();
        assert(v.filter_text.take(len - (n - 1)).drop_last() =~= v.filter_text.take(len - n));
    }
}

/// Typing a text into the filter and then deleting as many characters as
/// were typed brings back the filter text and the list that were there
/// before. Where the filter text was empty before, every fetched instance
/// is on display again, in the order in which it was fetched.
pub proof fn lemma_filter_restores(v: UiView, text: Seq<char>)
    requires
        view_wf(v),
        v.mode == Mode::FilterInput,
    ensures
        erased(typed(v, text), text.len()).filter_text == v.filter_text,
        erased(typed(v, text), text.len()).instances == v.instances,
        erased(typed(v, text), text.len()).fetched == v.fetched,
        v.filter_text.len() == 0 ==> erased(typed(v, text), text.len()).instances == v.fetched,
{
    lemma_typed_filter(v, text);
    let u = typed(v, text);
    lemma_erased_filter(u, text.len());
    assert((v.filter_text + text).take(v.filter_text.len() as int) =~= v.filter_text);
    if v.filter_text.len() == 0 {
        lemma_empty_filter_shows_all(v.fetched);
        assert(v.filter_text =~= Seq::<char>::empty());
    }
}

/// A key into the active buffer keeps the model well formed.
pub proof fn lemma_input_wf(v: UiView, key: Key)
    requires
        view_wf(v),
    ensures
        view_wf(input_applied(v, key)),
{
}

/// Every key keeps the model of the dashboard well formed, whatever the
/// mode: the list on display is the filtered one, the cursor points into a
/// list that is not empty, and only the active mode's buffer holds text.
pub proof fn lemma_key_keeps_wf(v: AppView, key: Key)
    requires
        view_wf(v.ui),
    ensures
        view_wf(after_key(v, key).ui),
        after_key(v, key).ui.fetched == v.ui.fetched,
        after_key(v, key).config == v.config,
        after_key(v, key).last_refresh == v.last_refresh,
{
    lemma_entered(v.ui, Mode::Normal);
    lemma_entered(v.ui, Mode::FilterInput);
    lemma_entered(v.ui, Mode::SearchInput);
    lemma_entered(v.ui, Mode::HelpPopup);
    lemma_entered(v.ui, Mode::DetailsPopup);
    lemma_input_wf(v.ui, key);
}

/// The model after a run of keys.
pub open spec fn after_keys(v: AppView, keys: Seq<Key>) -> AppView
    decreases keys.len(),
{
    if keys.len() == 0 {
        v
    } else {
        after_key(after_keys(v, keys.drop_last()), keys.last())
    }
}

/// Whatever keys are pressed, the model stays well formed and the fetched
/// instances stay as they are: keys alone never change what was fetched.
pub proof fn lemma_keys_keep_wf(v: AppView, keys: Seq<Key>)
    requires
        view_wf(v.ui),
    ensures
        view_wf(after_keys(v, keys).ui),
        after_keys(v, keys).ui.fetched == v.ui.fetched,
    decreases keys.len(),
{
    if keys.len() > 0 {
        lemma_keys_keep_wf(v, keys.drop_last());
        lemma_key_keeps_wf(after_keys(v, keys.drop_last()), keys.last());
    }
}

/// A refresh keeps the model well formed, replaces the fetched instances
/// by the listed ones, and leaves the cursor on an instance unless the
/// list on display is empty, where it stands at the first position.
pub proof fn lemma_refresh_keeps_wf(v: AppView, fetched: Seq<Instance>, now_ms: nat)
    requires
        view_wf(v.ui),
    ensures
        view_wf(after_refresh(v, fetched, now_ms).ui),
        after_refresh(v, fetched, now_ms).ui.fetched == fetched,
        after_refresh(v, fetched, now_ms).ui.instances == shown(fetched, v.ui.filter_text),
        after_refresh(v, fetched, now_ms).ui.instances.len() == 0 ==> after_refresh(
            v,
            fetched,
            now_ms,
        ).ui.selected_index == 0,
        fetched == v.ui.fetched ==> after_refresh(v, fetched, now_ms).ui.selected_index
            == v.ui.selected_index || v.ui.instances.len() == 0,
{
}

/// The last segment holds no `/`, it is the end of the text, and it is
/// either the whole text or stands right behind a `/`.
pub proof fn lemma_last_segment(s: Seq<char>)
    ensures
        last_segment(s).len() <= s.len(),
        forall|i: int| 0 <= i < last_segment(s).len() ==> last_segment(s)[i] != '/',
        s.subrange(s.len() - last_segment(s).len(), s.len() as int) == last_segment(s),
        last_segment(s).len() < s.len() ==> s[s.len() - last_segment(s).len() - 1] == '/',
    decreases s.len(),
{
    if s.len() == 0 {
        assert(s.subrange(0, 0) =~= s);
    } else if s.last() == '/' {
        assert(s.subrange(s.len() as int, s.len() as int) =~= Seq::<char>::empty());
    } else {
        let front = s.drop_last();
        lemma_last_segment(front);
        let seg = last_segment(front);
        assert(s.subrange(s.len() - seg.len() - 1, s.len() as int) =~= front.subrange(
            front.len() - seg.len(),
            front.len() as int,
        ).push(s.last()));
    }
}

} // verus!
