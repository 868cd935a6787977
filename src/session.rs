//! What the host reports of its sessions, and which one is current.
use vstd::prelude::*;

verus! {

/// One session of a host snapshot: its name, and whether it is the
/// current one.
pub struct SessionEntry {
    pub name: String,
    pub is_current: bool,
}

/// The index of the first session marked current, if any.
pub open spec fn first_current(sessions: Seq<SessionEntry>) -> Option<int> {
    if exists|i: int| 0 <= i < sessions.len() && #[trigger] sessions[i].is_current {
        Some(
            choose|i: int|
                0 <= i < sessions.len() && #[trigger] sessions[i].is_current && forall|j: int|
                    0 <= j < i ==> !#[trigger] sessions[j].is_current,
        )
    } else {
        None
    }
}

/// Finds the first session of the snapshot that is marked current.
pub fn find_current(sessions: &Vec<SessionEntry>) -> (r: Option<usize>)
    ensures
        match r {
            None => forall|j: int| 0 <= j < sessions@.len() ==> !#[trigger] sessions@[j].is_current,
            Some(i) => i < sessions@.len() && sessions@[i as int].is_current && forall|j: int|
                0 <= j < i ==> !#[trigger] sessions@[j].is_current,
        },
        r matches Some(i) ==> first_current(sessions@) == Some(i as int),
        r is None ==> first_current(sessions@) is None,
{
    let mut i: usize = 0;
    while i < sessions.len()
        invariant
            i <= sessions.len(),
            forall|j: int| 0 <= j < i ==> !#[trigger] sessions@[j].is_current,
        decreases sessions.len() - i,
    {
        if sessions[i].is_current {
            proof {
                let k = first_current(sessions@)->0;
                assert(sessions@[i as int].is_current);
                if k < i {
                    assert(!sessions@[k].is_current);
                } else if k > i {
                    assert(!sessions@[i as int].is_current);
                }
            }
            return Some(i);
        }
        i = i + 1;
    }
    None
}

} // verus!
