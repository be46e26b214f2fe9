//! The frame cycle: `begin` resets per-frame state, `end` settles focus
//! and z-order and splices the root containers' command runs into one
//! chain of jump records, and `drain_commands` walks that chain to hand
//! the frame's draw operations out in final z-order.

use vstd::prelude::*;

use crate::arith::{sadd, sat_add, sat_sub, ssub};
use crate::geometry::Vec2;
use crate::{
    Command, CommandHandler, Container, Context, ModKeyState, MouseState, TextSizeHandler,
    COMMAND_LIST_SIZE, CONTAINER_POOL_SIZE, ROOT_LIST_SIZE,
};

verus! {

/// The sort order over (z-index, container) pairs: by z-index alone;
/// stability comes from inserting each element after its equals.
pub open spec fn z_le(a: (i64, usize), b: (i64, usize)) -> bool {
    a.0 <= b.0
}

/// Inserting one pair into a sorted run, scanning from the right: the
/// pair lands after every element whose z-index does not exceed its own,
/// which keeps equal keys in insertion order (a stable sort).
pub open spec fn spec_insert(s: Seq<(i64, usize)>, p: (i64, usize)) -> Seq<(i64, usize)>
    decreases s.len(),
{
    if s.len() == 0 {
        seq![p]
    } else if z_le(s.last(), p) {
        s.push(p)
    } else {
        spec_insert(s.drop_last(), p).push(s.last())
    }
}

/// Insertion sort over (z-index, container) pairs: the stable ascending
/// order the frame's roots are painted in.
pub open spec fn spec_sort(s: Seq<(i64, usize)>) -> Seq<(i64, usize)>
    decreases s.len(),
{
    if s.len() == 0 {
        Seq::empty()
    } else {
        spec_insert(spec_sort(s.drop_last()), s.last())
    }
}

/// Ascending by z-index.
pub open spec fn z_sorted(s: Seq<(i64, usize)>) -> bool {
    forall|i: int, j: int| 0 <= i < j < s.len() ==> s[i].0 <= s[j].0
}

/// Inserting into a sorted run inserts at the unique stable position.
proof fn lemma_insert_splice(s: Seq<(i64, usize)>, p: (i64, usize), m: int)
    requires
        z_sorted(s),
        0 <= m <= s.len(),
        forall|j: int| m <= j < s.len() ==> s[j].0 > p.0,
        m == 0 || s[m - 1].0 <= p.0,
    ensures
        spec_insert(s, p) == s.take(m) + seq![p] + s.skip(m),
        z_sorted(spec_insert(s, p)),
    decreases s.len(),
{
    if s.len() == 0 {
        assert(spec_insert(s, p) =~= s.take(m) + seq![p] + s.skip(m));
    } else if z_le(s.last(), p) {
        assert(m == s.len());
        assert(spec_insert(s, p) =~= s.take(m) + seq![p] + s.skip(m));
    } else {
        assert(m < s.len());
        lemma_insert_splice(s.drop_last(), p, m);
        assert(s.drop_last().take(m) =~= s.take(m));
        assert(spec_insert(s, p) =~= s.take(m) + seq![p] + s.skip(m)) by {
            assert(spec_insert(s.drop_last(), p) == s.drop_last().take(m) + seq![p]
                + s.drop_last().skip(m));
            assert((s.take(m) + seq![p] + s.skip(m)).drop_last() =~= s.drop_last().take(m)
                + seq![p] + s.drop_last().skip(m));
            assert((s.take(m) + seq![p] + s.skip(m)).last() == s.last());
            assert(spec_insert(s, p) == spec_insert(s.drop_last(), p).push(s.last()));
            assert(spec_insert(s.drop_last(), p).push(s.last()) =~= s.take(m) + seq![p] + s.skip(
                m,
            ));
        }
    }
    let r = s.take(m) + seq![p] + s.skip(m);
    assert forall|i: int, j: int| 0 <= i < j < r.len() implies r[i].0 <= r[j].0 by {
        if i < m && j == m {
            assert(r[i] == s[i]);
        } else if i == m && j > m {
            assert(r[j] == s[j - 1]);
        } else if i < m && j > m {
            assert(r[i] == s[i] && r[j] == s[j - 1]);
        } else if i > m && j > m {
            assert(r[i] == s[i - 1] && r[j] == s[j - 1]);
        } else if i < m && j < m {
            assert(r[i] == s[i] && r[j] == s[j]);
        }
    }
}

/// One step of the command walk: follow a jump (spending one unit of
/// jump fuel), or deliver the command and move to the next slot. Walks
/// past the end, or out of fuel, end the stream.
pub open spec fn spec_walk(cmds: Seq<Command>, i: int, fuel: nat) -> Seq<Command>
    decreases fuel, cmds.len() - i,
{
    if i < 0 || i >= cmds.len() {
        Seq::empty()
    } else {
        match cmds[i] {
            Command::Jump { target } => {
                if fuel == 0 {
                    Seq::empty()
                } else {
                    spec_walk(cmds, target as int, (fuel - 1) as nat)
                }
            },
            _ => {
                if i + 1 <= cmds.len() {
                    seq![cmds[i]] + spec_walk(cmds, i + 1, fuel)
                } else {
                    seq![cmds[i]]
                }
            },
        }
    }
}

/// Walking a flat run: from inside a container's run (no jumps until its
/// tail), the walk delivers the run's commands and continues wherever
/// the tail jump points, having spent one unit of fuel.
pub proof fn lemma_walk_run(cmds: Seq<Command>, i: int, t: int, fuel: nat)
    requires
        0 <= i <= t < cmds.len(),
        cmds[t] matches Command::Jump { .. },
        forall|j: int| i <= j < t ==> !((#[trigger] cmds[j]) matches Command::Jump { .. }),
        fuel > 0,
    ensures
        spec_walk(cmds, i, fuel) == cmds.subrange(i, t) + spec_walk(
            cmds,
            (cmds[t]->Jump_target) as int,
            (fuel - 1) as nat,
        ),
    decreases t - i,
{
    if i == t {
        assert(cmds.subrange(i, t) =~= Seq::<Command>::empty());
        assert(spec_walk(cmds, i, fuel) =~= cmds.subrange(i, t) + spec_walk(
            cmds,
            (cmds[t]->Jump_target) as int,
            (fuel - 1) as nat,
        ));
    } else {
        lemma_walk_run(cmds, i + 1, t, fuel);
        assert(cmds.subrange(i, t) =~= seq![cmds[i]] + cmds.subrange(i + 1, t));
        assert(spec_walk(cmds, i, fuel) =~= cmds.subrange(i, t) + spec_walk(
            cmds,
            (cmds[t]->Jump_target) as int,
            (fuel - 1) as nat,
        ));
    }
}

/// Command splice correctness for two overlapping windows: after the
/// frame's end has patched the jumps so that the first command leads to
/// the lower window's run, its tail leads to the higher window's run,
/// and that run's tail leads past the buffer, the walk delivers exactly
/// the lower run followed by the higher run — every command once, none
/// dropped, none duplicated.
pub proof fn lemma_splice_two_windows(
    cmds: Seq<Command>,
    ha: int,
    ta: int,
    hb: int,
    tb: int,
    fuel: nat,
)
    requires
        0 <= ha < ta < cmds.len(),
        0 <= hb < tb < cmds.len(),
        cmds[0] matches Command::Jump { target } && target == ha + 1,
        cmds[ta] matches Command::Jump { target } && target == hb + 1,
        cmds[tb] matches Command::Jump { target } && target == cmds.len(),
        forall|j: int| ha < j < ta ==> !((#[trigger] cmds[j]) matches Command::Jump { .. }),
        forall|j: int| hb < j < tb ==> !((#[trigger] cmds[j]) matches Command::Jump { .. }),
        fuel >= 3,
    ensures
        spec_walk(cmds, 0, fuel) == cmds.subrange(ha + 1, ta) + cmds.subrange(hb + 1, tb),
{
    assert(spec_walk(cmds, 0, fuel) == spec_walk(cmds, ha + 1, (fuel - 1) as nat));
    lemma_walk_run(cmds, ha + 1, ta, (fuel - 1) as nat);
    lemma_walk_run(cmds, hb + 1, tb, (fuel - 2) as nat);
    assert(spec_walk(cmds, cmds.len() as int, (fuel - 3) as nat) =~= Seq::<Command>::empty());
    assert(spec_walk(cmds, 0, fuel) =~= cmds.subrange(ha + 1, ta) + cmds.subrange(hb + 1, tb));
}

impl<F: TextSizeHandler> Context<F> {
    /// Starts a frame: clears the command buffer and root list, resets
    /// the cursor hint and wheel target, promotes the hover-root
    /// candidate found last frame, computes the pointer delta, and
    /// advances the frame counter.
    pub fn begin(&mut self)
        requires
            old(self).wf(),
            old(self).frame < u64::MAX,
        ensures
            final(self).wf(),
            *final(self) == (Context {
                command_list: final(self).command_list,
                root_list: final(self).root_list,
                cursor_icon: None,
                scroll_target: None,
                hover_root: old(self).next_hover_root,
                next_hover_root: None,
                mouse_delta: Vec2 {
                    x: sat_sub(old(self).mouse_pos.x as int, old(self).last_mouse_pos.x as int)
                        as i32,
                    y: sat_sub(old(self).mouse_pos.y as int, old(self).last_mouse_pos.y as int)
                        as i32,
                },
                frame: (old(self).frame + 1) as u64,
                ..*old(self)
            }),
            final(self).command_list@ == Seq::<Command>::empty(),
            final(self).root_list@ == Seq::<usize>::empty(),
    {
        self.command_list.clear();
        self.root_list.clear();
        self.cursor_icon = None;
        self.scroll_target = None;
        self.hover_root = self.next_hover_root;
        self.next_hover_root = None;
        self.mouse_delta = Vec2 {
            x: ssub(self.mouse_pos.x, self.last_mouse_pos.x),
            y: ssub(self.mouse_pos.y, self.last_mouse_pos.y),
        };
        self.frame = self.frame + 1;
    }

    /// Sorts the root list ascending by z-index with a stable insertion
    /// sort, exactly as [`spec_sort`] computes it over the (z-index,
    /// container) pairs in declaration order.
    pub(crate) fn sort_roots(&mut self)
        requires
            old(self).wf(),
        ensures
            final(self).wf(),
            *final(self) == (Context { root_list: final(self).root_list, ..*old(self) }),
            ({
                let pairs = Seq::new(
                    old(self).root_list@.len(),
                    |k: int|
                        (
                            old(self).containers@[old(self).root_list@[k] as int].zindex,
                            old(self).root_list@[k],
                        ),
                );
                let sorted = spec_sort(pairs);
                &&& sorted.len() == old(self).root_list@.len()
                &&& final(self).root_list@.len() == old(self).root_list@.len()
                &&& forall|j: int|
                    0 <= j < sorted.len() ==> final(self).root_list@[j] == sorted[j].1
            }),
            // The sorted list holds the same containers: every entry comes
            // from the old list, and distinct entries stay distinct.
            forall|j: int|
                0 <= j < final(self).root_list@.len() ==> exists|k: int|
                    0 <= k < old(self).root_list@.len() && #[trigger] final(self).root_list@[j]
                        == #[trigger] old(self).root_list@[k],
            (forall|k1: int, k2: int|
                0 <= k1 < k2 < old(self).root_list@.len() ==> old(self).root_list@[k1] != old(self).root_list@[k2]) ==> (forall|j1: int, j2: int|
                0 <= j1 < j2 < final(self).root_list@.len() ==> final(self).root_list@[j1] != final(self).root_list@[j2]),
            // Ascending paint order.
            forall|j1: int, j2: int|
                0 <= j1 < j2 < final(self).root_list@.len() ==> old(self).containers@[
                    #[trigger] final(self).root_list@[j1] as int].zindex <= old(self).containers@[
                    #[trigger] final(self).root_list@[j2] as int].zindex,
    {
        let ghost pairs = Seq::new(
            old(self).root_list@.len(),
            |k: int|
                (
                    old(self).containers@[old(self).root_list@[k] as int].zindex,
                    old(self).root_list@[k],
                ),
        );
        let n = self.root_list.len();
        let mut out: Vec<(i64, usize)> = Vec::new();
        let mut k: usize = 0;
        while k < n
            invariant
                self.wf(),
                *self == *old(self),
                n == self.root_list@.len(),
                k <= n,
                pairs == Seq::new(
                    self.root_list@.len(),
                    |k: int|
                        (
                            self.containers@[self.root_list@[k] as int].zindex,
                            self.root_list@[k],
                        ),
                ),
                out@.len() == k,
                out@ == spec_sort(pairs.take(k as int)),
                z_sorted(out@),
                forall|j: int| 0 <= j < out@.len() ==> (#[trigger] out@[j]).1 < CONTAINER_POOL_SIZE,
                forall|j: int|
                    0 <= j < out@.len() ==> exists|k0: int|
                        0 <= k0 < k && (#[trigger] out@[j]).1 == #[trigger] self.root_list@[k0],
                forall|j: int|
                    0 <= j < out@.len() ==> (#[trigger] out@[j]).0 == self.containers@[out@[j].1
                        as int].zindex,
                (forall|k1: int, k2: int|
                    0 <= k1 < k2 < n ==> self.root_list@[k1] != self.root_list@[k2]) ==> (
                forall|j1: int, j2: int|
                    0 <= j1 < j2 < out@.len() ==> out@[j1].1 != out@[j2].1),
            decreases n - k,
        {
            let idx = self.root_list.get_copy(k);
            let z = self.containers.get(idx).zindex;
            let p = (z, idx);

            let mut m = out.len();
            while m > 0 && out[m - 1].0 > p.0
                invariant
                    m <= out@.len(),
                    forall|j: int| m <= j < out@.len() ==> out@[j].0 > p.0,
                decreases m,
            {
                m = m - 1;
            }
            proof {
                lemma_insert_splice(out@, p, m as int);
                assert(pairs.take(k + 1 as int).drop_last() =~= pairs.take(k as int));
                assert(pairs.take(k + 1 as int).last() == pairs[k as int]);
                assert(pairs[k as int] == p);
            }
            let ghost prev = out@;
            out.insert(m, p);
            proof {
                assert(out@ =~= spec_sort(pairs.take(k as int)).take(m as int) + seq![p]
                    + spec_sort(pairs.take(k as int)).skip(m as int));
                assert(out@ == spec_insert(spec_sort(pairs.take(k as int)), p));
                assert(out@ == spec_sort(pairs.take(k + 1 as int)));
                assert forall|j: int| 0 <= j < out@.len() implies (#[trigger] out@[j]) == p
                    || exists|j0: int| 0 <= j0 < prev.len() && out@[j] == prev[j0] by {
                    if j < m {
                        assert(out@[j] == prev[j]);
                    } else if j > m {
                        assert(out@[j] == prev[j - 1]);
                    }
                }
            }
            k = k + 1;
        }
        proof {
            assert(pairs.take(n as int) =~= pairs);
        }

        // Write the sorted container order back.
        let mut j: usize = 0;
        while j < n
            invariant
                self.root_list.wf(),
                self.root_list@.len() == n,
                out@.len() == n,
                j <= n,
                out@ == spec_sort(pairs),
                forall|i: int| 0 <= i < out@.len() ==> (#[trigger] out@[i]).1 < CONTAINER_POOL_SIZE,
                forall|i: int|
                    0 <= i < out@.len() ==> exists|k0: int|
                        0 <= k0 < n && (#[trigger] out@[i]).1 == #[trigger] old(self).root_list@[k0],
                forall|i: int|
                    0 <= i < out@.len() ==> (#[trigger] out@[i]).0 == self.containers@[out@[i].1
                        as int].zindex,
                z_sorted(out@),
                (forall|k1: int, k2: int|
                    0 <= k1 < k2 < n ==> old(self).root_list@[k1] != old(self).root_list@[k2])
                    ==> (forall|j1: int, j2: int|
                    0 <= j1 < j2 < out@.len() ==> out@[j1].1 != out@[j2].1),
                *self == (Context { root_list: self.root_list, ..*old(self) }),
                self.wf(),
                forall|i: int| 0 <= i < j ==> self.root_list@[i] == out@[i].1,
            decreases n - j,
        {
            let p = out[j];
            self.root_list.set(j, p.1);
            j = j + 1;
        }
    }

    /// Whether a container's run is bracketed in the buffer: both jump
    /// records in place, head strictly before tail.
    pub open spec fn root_bracketed(cmds: Seq<Command>, c: Container) -> bool {
        &&& c.head is Some
        &&& c.tail is Some
        &&& 0 <= c.head->Some_0 < c.tail->Some_0 < cmds.len()
        &&& (cmds[c.head->Some_0 as int] matches Command::Jump { .. })
        &&& (cmds[c.tail->Some_0 as int] matches Command::Jump { .. })
    }

    /// Patches the jump chain over the already sorted root list: the
    /// first command leads into the lowest root's run, each root's tail
    /// leads into the next root's run, and the last root's tail leads
    /// past the buffer. Nothing but the first slot and the roots' tail
    /// slots changes.
    #[verifier::rlimit(100)]
    pub(crate) fn splice_roots(&mut self)
        requires
            old(self).wf(),
            old(self).root_list@.len() > 0 ==> (old(self).command_list@[0]
                matches Command::Jump { .. }),
            forall|k: int|
                0 <= k < old(self).root_list@.len() ==> Self::root_bracketed(
                    old(self).command_list@,
                    old(self).containers@[#[trigger] old(self).root_list@[k] as int],
                ),
            forall|k1: int, k2: int|
                0 <= k1 < k2 < old(self).root_list@.len() ==> old(self).root_list@[k1] != old(self).root_list@[k2],
            forall|k1: int, k2: int|
                0 <= k1 < k2 < old(self).root_list@.len() ==> old(self).containers@[old(self).root_list@[k1] as int].tail != old(self).containers@[old(self).root_list@[k2] as int].tail,
        ensures
            final(self).wf(),
            *final(self) == (Context { command_list: final(self).command_list, ..*old(self) }),
            final(self).command_list@.len() == old(self).command_list@.len(),
            crate::container::cmds_extended(old(self).command_list@, final(self).command_list@),
            ({
                let rl = old(self).root_list@;
                let cs = old(self).containers@;
                let n = rl.len() as int;
                let lcmds = final(self).command_list@;
                &&& (n > 0 ==> lcmds[0] == (Command::Jump {
                    target: (cs[rl[0] as int].head->Some_0 + 1) as usize,
                }))
                &&& (forall|k: int|
                    0 <= k < n - 1 ==> lcmds[#[trigger] cs[rl[k] as int].tail->Some_0 as int]
                        == (Command::Jump { target: (cs[rl[k + 1] as int].head->Some_0 + 1) as usize }))
                &&& (n > 0 ==> lcmds[cs[rl[n - 1] as int].tail->Some_0 as int] == (Command::Jump {
                    target: old(self).command_list@.len() as usize,
                }))
                &&& (forall|pos: int|
                    0 <= pos < lcmds.len() && pos != 0 && (forall|k: int|
                        0 <= k < n ==> pos != cs[#[trigger] rl[k] as int].tail->Some_0 as int)
                        ==> #[trigger] lcmds[pos] == old(self).command_list@[pos])
            }),
    {
        let n = self.root_list.len();
        let l = self.command_list.len();
        let ghost rl = self.root_list@;
        let ghost cs = self.containers@;
        let ghost cmds0 = self.command_list@;
        let mut i: usize = 0;
        while i < n
            invariant
                self.wf(),
                *self == (Context { command_list: self.command_list, ..*old(self) }),
                rl == old(self).root_list@,
                cs == old(self).containers@,
                cmds0 == old(self).command_list@,
                n == rl.len(),
                l == cmds0.len(),
                self.command_list@.len() == l,
                i <= n,
                n > 0 ==> (cmds0[0] matches Command::Jump { .. }),
                forall|k: int|
                    0 <= k < n ==> Self::root_bracketed(cmds0, cs[#[trigger] rl[k] as int]),
                forall|k1: int, k2: int| 0 <= k1 < k2 < n ==> rl[k1] != rl[k2],
                forall|k1: int, k2: int|
                    0 <= k1 < k2 < n ==> cs[rl[k1] as int].tail != cs[rl[k2] as int].tail,
                crate::container::cmds_extended(cmds0, self.command_list@),
                i > 0 ==> self.command_list@[0] == (Command::Jump {
                    target: (cs[rl[0] as int].head->Some_0 + 1) as usize,
                }),
                forall|k: int|
                    0 <= k < i - 1 ==> self.command_list@[#[trigger] cs[rl[k] as int].tail->Some_0
                        as int] == (Command::Jump {
                        target: (cs[rl[k + 1] as int].head->Some_0 + 1) as usize,
                    }),
                i == n && n > 0 ==> self.command_list@[cs[rl[n - 1] as int].tail->Some_0 as int]
                    == (Command::Jump { target: l as usize }),
                forall|pos: int|
                    0 <= pos < l && pos != 0 && (forall|k: int|
                        0 <= k < i ==> pos != cs[#[trigger] rl[k] as int].tail->Some_0 as int)
                        ==> #[trigger] self.command_list@[pos] == cmds0[pos],
            decreases n - i,
        {
            let cnt = self.root_list.get_copy(i);
            let head = match self.containers.get(cnt).head {
                Some(h) => h,
                None => {
                    proof {
                        assert(Self::root_bracketed(cmds0, cs[rl[i as int] as int]));
                        assert(false);
                    }
                    0
                },
            };

            if i == 0 {
                // The first command leads into the lowest root's run.
                self.command_list.set(0, Command::Jump { target: head + 1 });
            } else {
                let prev = self.root_list.get_copy(i - 1);
                let prev_tail = match self.containers.get(prev).tail {
                    Some(t) => t,
                    None => {
                        proof {
                            assert(Self::root_bracketed(cmds0, cs[rl[i - 1] as int]));
                            assert(false);
                        }
                        0
                    },
                };
                self.command_list.set(prev_tail, Command::Jump { target: head + 1 });
            }

            if i == n - 1 {
                let tail = match self.containers.get(cnt).tail {
                    Some(t) => t,
                    None => {
                        proof {
                            assert(Self::root_bracketed(cmds0, cs[rl[i as int] as int]));
                            assert(false);
                        }
                        0
                    },
                };
                self.command_list.set(tail, Command::Jump { target: l });
            }

            i = i + 1;
        }
    }

    /// Ends the frame: applies the wheel delta to its target, settles
    /// focus (a frame in which no widget claimed focus clears it), brings
    /// a clicked non-topmost hover root to the front, consumes the
    /// per-frame input state, sorts the roots into paint order, and
    /// splices their command runs into one jump chain. Stacks must be
    /// balanced: a missing end call for a window or panel is a structural
    /// error in the declaration sequence.
    #[verifier::rlimit(100)]
    pub fn end(&mut self)
        requires
            old(self).wf(),
            old(self).container_stack@.len() == 0,
            old(self).clip_stack@.len() == 0,
            old(self).id_stack@.len() == 0,
            old(self).layout_stack@.len() == 0,
            old(self).last_zindex < i64::MAX,
            // A non-empty buffer must start with a jump record: a widget
            // drawn outside any window or popup is a structural error.
            old(self).command_list@.len() > 0 ==> (old(self).command_list@[0]
                matches Command::Jump { .. }),
            forall|k: int|
                0 <= k < old(self).root_list@.len() ==> Self::root_bracketed(
                    old(self).command_list@,
                    old(self).containers@[#[trigger] old(self).root_list@[k] as int],
                ),
            forall|k1: int, k2: int|
                0 <= k1 < k2 < old(self).root_list@.len() ==> old(self).root_list@[k1] != old(self).root_list@[k2],
            forall|k1: int, k2: int|
                0 <= k1 < k2 < old(self).root_list@.len() ==> old(self).containers@[old(self).root_list@[k1] as int].tail != old(self).containers@[old(self).root_list@[k2] as int].tail,
        ensures
            final(self).wf(),
            // Placement persists across the frame boundary: only scroll
            // offsets and z-indexes of containers ever change here.
            final(self).containers@.len() == old(self).containers@.len(),
            forall|j: int|
                0 <= j < old(self).containers@.len() ==> #[trigger] final(self).containers@[j]
                    == (Container {
                    scroll: final(self).containers@[j].scroll,
                    zindex: final(self).containers@[j].zindex,
                    ..old(self).containers@[j]
                }),
            // The accumulated wheel delta lands on its target container's
            // scroll offset; every other scroll offset survives.
            forall|j: int|
                0 <= j < CONTAINER_POOL_SIZE && (match old(self).scroll_target {
                    Some(i) => j != i as int,
                    None => true,
                }) ==> (#[trigger] final(self).containers@[j]).scroll == old(self).containers@[j].scroll,
            (old(self).scroll_target matches Some(i) ==> final(self).containers@[i as int].scroll
                == (Vec2 {
                x: sat_add(
                    old(self).containers@[i as int].scroll.x as int,
                    old(self).scroll_delta.x as int,
                ) as i32,
                y: sat_add(
                    old(self).containers@[i as int].scroll.y as int,
                    old(self).scroll_delta.y as int,
                ) as i32,
            })),
            // A click on a hover-root candidate that is not on top brings
            // it to the front: its z-index becomes the new maximum, above
            // every other container; otherwise no z-index moves.
            forall|j: int|
                0 <= j < CONTAINER_POOL_SIZE && (match old(self).next_hover_root {
                    Some(i) => j != i as int,
                    None => true,
                }) ==> (#[trigger] final(self).containers@[j]).zindex == old(self).containers@[j].zindex,
            (old(self).next_hover_root matches Some(i) ==> ({
                let z = old(self).containers@[i as int].zindex;
                if old(self).mouse_pressed.spec_any() && 0 <= z < old(self).last_zindex {
                    &&& final(self).containers@[i as int].zindex == old(self).last_zindex + 1
                    &&& final(self).last_zindex == old(self).last_zindex + 1
                    &&& forall|j: int|
                        0 <= j < CONTAINER_POOL_SIZE && j != i as int ==> (#[trigger] final(self).containers@[j]).zindex < final(self).containers@[i as int].zindex
                } else {
                    &&& final(self).containers@[i as int].zindex == z
                    &&& final(self).last_zindex == old(self).last_zindex
                }
            })),
            (old(self).next_hover_root is None ==> final(self).last_zindex == old(self).last_zindex),
            // Focus settles: untouched focus dissolves.
            final(self).focus_id == if old(self).updated_focus {
                old(self).focus_id
            } else {
                None
            },
            final(self).updated_focus == false,
            // Per-frame input is consumed.
            final(self).mouse_pressed == (MouseState { left: false, right: false, middle: false }),
            final(self).key_pressed == (ModKeyState {
                shift: false,
                ctrl: false,
                alt: false,
                backspace: false,
                ret: false,
            }),
            final(self).scroll_delta == (Vec2 { x: 0, y: 0 }),
            final(self).last_mouse_pos == old(self).mouse_pos,
            final(self).text_input@ == Seq::<char>::empty(),
            final(self).hover_root == old(self).hover_root,
            final(self).next_hover_root == old(self).next_hover_root,
            final(self).mouse_pos == old(self).mouse_pos,
            final(self).mouse_down == old(self).mouse_down,
            final(self).key_down == old(self).key_down,
            final(self).frame == old(self).frame,
            final(self).style == old(self).style,
            final(self).container_stack@ == old(self).container_stack@,
            final(self).clip_stack@ == old(self).clip_stack@,
            final(self).id_stack@ == old(self).id_stack@,
            final(self).layout_stack@ == old(self).layout_stack@,
            // The roots come out sorted ascending by z-index, a stable
            // permutation of the declared roots.
            final(self).root_list@.len() == old(self).root_list@.len(),
            forall|j1: int, j2: int|
                0 <= j1 < j2 < final(self).root_list@.len() ==> final(self).containers@[
                    #[trigger] final(self).root_list@[j1] as int].zindex <= final(self).containers@[#[trigger] final(self).root_list@[j2] as int].zindex,
            forall|j: int|
                0 <= j < final(self).root_list@.len() ==> exists|k: int|
                    0 <= k < old(self).root_list@.len() && #[trigger] final(self).root_list@[j]
                        == #[trigger] old(self).root_list@[k],
            // ... without duplicating or dropping a root,
            forall|j1: int, j2: int|
                0 <= j1 < j2 < final(self).root_list@.len() ==> final(self).root_list@[j1]
                    != final(self).root_list@[j2],
            // ... and in exactly the stable insertion order: ties keep
            // their declaration order.
            ({
                let pairs = Seq::new(
                    old(self).root_list@.len(),
                    |k: int|
                        (
                            final(self).containers@[old(self).root_list@[k] as int].zindex,
                            old(self).root_list@[k],
                        ),
                );
                forall|j: int|
                    0 <= j < final(self).root_list@.len() ==> #[trigger] final(self).root_list@[j] == spec_sort(pairs)[j].1
            }),
            final(self).cursor_icon == old(self).cursor_icon,
            final(self).hover_id == old(self).hover_id,
            final(self).open_roots == old(self).open_roots,
            final(self).scroll_target == old(self).scroll_target,
            // The command buffer is unchanged but for re-targeted jumps:
            // the first command leads into the lowest run, each tail into
            // the next run, the last tail past the buffer.
            final(self).command_list@.len() == old(self).command_list@.len(),
            crate::container::cmds_extended(old(self).command_list@, final(self).command_list@),
            ({
                let rl = final(self).root_list@;
                let cs = final(self).containers@;
                let n = rl.len() as int;
                let lcmds = final(self).command_list@;
                &&& (n > 0 ==> lcmds[0] == (Command::Jump {
                    target: (cs[rl[0] as int].head->Some_0 + 1) as usize,
                }))
                &&& (forall|k: int|
                    0 <= k < n - 1 ==> lcmds[#[trigger] cs[rl[k] as int].tail->Some_0 as int]
                        == (Command::Jump { target: (cs[rl[k + 1] as int].head->Some_0 + 1) as usize }))
                &&& (n > 0 ==> lcmds[cs[rl[n - 1] as int].tail->Some_0 as int] == (Command::Jump {
                    target: lcmds.len() as usize,
                }))
                &&& (forall|pos: int|
                    0 <= pos < lcmds.len() && pos != 0 && (forall|k: int|
                        0 <= k < n ==> pos != cs[#[trigger] rl[k] as int].tail->Some_0 as int)
                        ==> #[trigger] lcmds[pos] == old(self).command_list@[pos])
            }),
    {
        // Apply the accumulated wheel delta to its target container.
        if let Some(index) = self.scroll_target {
            let mut c = self.containers.get_copy(index);
            c.scroll.x = sadd(c.scroll.x, self.scroll_delta.x);
            c.scroll.y = sadd(c.scroll.y, self.scroll_delta.y);
            self.containers.set(index, c);
        }

        // A frame in which no widget claimed focus dissolves it.
        if !self.updated_focus {
            self.focus_id = None;
        }
        self.updated_focus = false;

        // Bring the hover-root candidate to the front on a click.
        if let Some(index) = self.next_hover_root {
            if self.mouse_any_pressed() {
                let z = self.containers.get(index).zindex;
                if z < self.last_zindex && z >= 0 {
                    self.last_zindex = self.last_zindex + 1;
                    let mut c = self.containers.get_copy(index);
                    c.zindex = self.last_zindex;
                    self.containers.set(index, c);
                }
            }
        }

        // Consume the per-frame input state.
        self.key_pressed = ModKeyState::none();
        self.mouse_pressed = MouseState::none();
        self.scroll_delta = Vec2 { x: 0, y: 0 };
        self.last_mouse_pos = self.mouse_pos;
        self.text_input.clear();

        let ghost mid = *self;
        proof {
            if self.root_list@.len() > 0 {
                assert(Self::root_bracketed(
                    self.command_list@,
                    self.containers@[self.root_list@[0] as int],
                ));
                assert(self.command_list@.len() > 0);
            }
        }
        self.sort_roots();
        self.splice_roots();
        proof {
            let pairs_mid = Seq::new(
                mid.root_list@.len(),
                |k: int|
                    (mid.containers@[mid.root_list@[k] as int].zindex, mid.root_list@[k]),
            );
            let pairs_final = Seq::new(
                old(self).root_list@.len(),
                |k: int|
                    (
                        final(self).containers@[old(self).root_list@[k] as int].zindex,
                        old(self).root_list@[k],
                    ),
            );
            assert(pairs_mid =~= pairs_final);
        }
    }

    /// Hands the frame's commands out in final z-order: follows the jump
    /// chain from the first slot, exactly as [`spec_walk`] describes with
    /// one unit of jump fuel per possible buffer slot plus one, and
    /// empties the buffer — ownership of the text payloads passes to the
    /// caller, who receives each command exactly once.
    pub fn drain_commands(&mut self) -> (r: Vec<Command>)
        requires
            old(self).wf(),
        ensures
            final(self).wf(),
            *final(self) == (Context { command_list: final(self).command_list, ..*old(self) }),
            final(self).command_list@ == Seq::<Command>::empty(),
            r@ == spec_walk(old(self).command_list@, 0, (COMMAND_LIST_SIZE + 1) as nat),
    {
        let ghost cmds = self.command_list@;
        let mut out: Vec<Command> = Vec::new();
        let n = self.command_list.len();
        let mut i: usize = 0;
        let mut fuel: usize = COMMAND_LIST_SIZE + 1;
        while i < n
            invariant
                self.wf(),
                *self == *old(self),
                cmds == self.command_list@,
                n == cmds.len(),
                out@ + spec_walk(cmds, i as int, fuel as nat) == spec_walk(
                    cmds,
                    0,
                    (COMMAND_LIST_SIZE + 1) as nat,
                ),
            decreases fuel, n - i,
        {
            let is_jump: Option<usize> = match self.command_list.get(i) {
                Command::Jump { target } => Some(*target),
                _ => None,
            };
            match is_jump {
                Some(target) => {
                    if fuel == 0 {
                        // Out of jump fuel: a cycle in the chain, which a
                        // well-formed frame never produces; end the stream.
                        i = n;
                    } else {
                        fuel = fuel - 1;
                        i = target;
                    }
                },
                None => {
                    let c = clone_command(self.command_list.get(i));
                    proof {
                        assert(out@.push(c) + spec_walk(cmds, i + 1 as int, fuel as nat) =~= out@
                            + (seq![cmds[i as int]] + spec_walk(cmds, i + 1 as int, fuel as nat)));
                    }
                    out.push(c);
                    i = i + 1;
                },
            }
        }
        proof {
            assert(spec_walk(cmds, i as int, fuel as nat) =~= Seq::<Command>::empty());
            assert(out@ + Seq::<Command>::empty() =~= out@);
        }
        self.command_list.clear();
        out
    }

    /// Drains the frame's commands and feeds them, in final z-order, to
    /// the caller's consumer; the buffer is empty afterwards.
    pub fn handle_commands<H: CommandHandler>(&mut self, handler: &mut H)
        requires
            old(self).wf(),
        ensures
            final(self).wf(),
            *final(self) == (Context { command_list: final(self).command_list, ..*old(self) }),
            final(self).command_list@ == Seq::<Command>::empty(),
    {
        let mut cmds = self.drain_commands();
        let n = cmds.len();
        let mut i: usize = 0;
        while i < n
            invariant
                i <= n,
                n == cmds@.len(),
            decreases n - i,
        {
            let c = clone_command(&cmds[i]);
            match c {
                Command::Clip { rect } => handler.clip_cmd(rect),
                Command::Rect { rect, color } => handler.rect_cmd(rect, color),
                Command::Icon { id, rect, color } => handler.icon_cmd(id, rect, color),
                Command::Text { font, pos, color, text } => handler.text_cmd(
                    font,
                    pos,
                    color,
                    text,
                ),
                Command::Jump { .. } => {},
            }
            i = i + 1;
        }
    }
}

/// A structural copy of one command; the text payload is cloned.
fn clone_command(c: &Command) -> (r: Command)
    ensures
        r == *c,
{
    match c {
        Command::Jump { target } => Command::Jump { target: *target },
        Command::Clip { rect } => Command::Clip { rect: *rect },
        Command::Rect { rect, color } => Command::Rect { rect: *rect, color: *color },
        Command::Text { font, pos, color, text } => Command::Text {
            font: *font,
            pos: *pos,
            color: *color,
            text: text.clone(),
        },
        Command::Icon { id, rect, color } => Command::Icon { id: *id, rect: *rect, color: *color },
    }
}

} // verus!
