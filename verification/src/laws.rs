//! Properties that relate several transitions, proved once and for
//! all states: the modular wrap of upward navigation, and the
//! idempotence of toggling a storage selection twice.

use vstd::prelude::*;
use vstd::arithmetic::div_mod::{lemma_mod_multiples_vanish, lemma_small_mod};
use crate::dispatch::previous_step;
use crate::state::{
    lemma_remove_all_membership, spec_no_dups, spec_remove_all, App,
};

verus! {

/// Moving the cursor up wraps modulo the list length: the explicit
/// form the `previous` transition takes equals the modular one, so
/// `next` and `previous` wrap the same way.
pub proof fn lemma_previous_wraps(i: int, len: int)
    requires
        0 <= i < len,
    ensures
        (if i > 0 {
            i - 1
        } else {
            len - 1
        }) == (i + len - 1) % len,
{
    if i > 0 {
        lemma_mod_multiples_vanish(1, i - 1, len);
        assert(len * 1 + (i - 1) == i + len - 1);
        lemma_small_mod((i - 1) as nat, len as nat);
    } else {
        lemma_small_mod((len - 1) as nat, len as nat);
    }
}

/// An upward step of the cursor is exactly the downward step's modular
/// inverse: from a valid position, `previous` lands on the index one
/// below modulo the list length, just as `next` lands one above.
pub proof fn lemma_previous_step_wraps(pre: App, post: App)
    requires
        previous_step(pre, post),
        pre.spec_current_len() > 0,
        (pre.selected_index as int) < pre.spec_current_len(),
    ensures
        post.selected_index as int == (pre.selected_index + pre.spec_current_len() - 1)
            % pre.spec_current_len(),
{
    lemma_previous_wraps(pre.selected_index as int, pre.spec_current_len());
}

/// Toggling a storage-item index twice returns the multi-select set to
/// its original state: membership of every index is as it was.
pub proof fn lemma_toggle_twice_restores_selection(len: int, idx: usize, sel: Seq<usize>)
    requires
        spec_no_dups(sel),
    ensures
        App::spec_toggled_selection(
            len,
            idx,
            App::spec_toggled_selection(len, idx, sel),
        ).to_set() == sel.to_set(),
{
    let once = App::spec_toggled_selection(len, idx, sel);
    let twice = App::spec_toggled_selection(len, idx, once);
    if len == 0 {
    } else if sel.contains(idx) {
        assert(once == spec_remove_all(sel, idx));
        lemma_remove_all_membership(sel, idx, idx);
        assert(!once.contains(idx));
        assert(twice == once.push(idx));
        assert forall|y: usize| twice.contains(y) <==> sel.contains(y) by {
            lemma_remove_all_membership(sel, idx, y);
            assert(once.push(idx)[once.len() as int] == idx);
            if once.contains(y) {
                let t = choose|t: int| 0 <= t < once.len() && once[t] == y;
                assert(once.push(idx)[t] == y);
            }
            if twice.contains(y) && y != idx {
                let t = choose|t: int| 0 <= t < twice.len() && twice[t] == y;
                assert(once[t] == y);
            }
        }
        assert(twice.to_set() =~= sel.to_set());
    } else {
        assert(once == sel.push(idx));
        assert(once.contains(idx)) by {
            assert(once[sel.len() as int] == idx);
        }
        assert(twice == spec_remove_all(sel.push(idx), idx));
        assert forall|y: usize| twice.contains(y) <==> sel.contains(y) by {
            lemma_remove_all_membership(sel.push(idx), idx, y);
            if sel.contains(y) {
                let t = choose|t: int| 0 <= t < sel.len() && sel[t] == y;
                assert(sel.push(idx)[t] == y);
            }
            if sel.push(idx).contains(y) && y != idx {
                let t = choose|t: int| 0 <= t < sel.push(idx).len() && sel.push(idx)[t] == y;
                assert(sel[t] == y);
            }
        }
        assert(twice.to_set() =~= sel.to_set());
    }
}

} // verus!
