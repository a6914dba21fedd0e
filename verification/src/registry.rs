//! The registry of windows: those that wait for the platform, and those that
//! are live.

use vstd::prelude::*;
use crate::ids::WindowId;
use crate::shell::WindowHandle;
use crate::window::{PendingWindow, Window};

verus! {

/// Where the first entry under `id` stands at or after `from`, or the length
/// of `entries` when there is none.
pub open spec fn position_from<X>(entries: Seq<(WindowId, X)>, id: WindowId, from: int) -> int
    decreases entries.len() - from,
{
    if from < 0 || from >= entries.len() {
        entries.len() as int
    } else if entries[from].0 == id {
        from
    } else {
        position_from(entries, id, from + 1)
    }
}

/// Where the first entry under `id` stands, or the length of `entries` when
/// there is none.
pub open spec fn position<X>(entries: Seq<(WindowId, X)>, id: WindowId) -> int {
    position_from(entries, id, 0)
}

/// Whether no id stands twice in `entries`.
pub open spec fn distinct_ids<X>(entries: Seq<(WindowId, X)>) -> bool {
    forall|i: int, j: int|
        0 <= i < entries.len() && 0 <= j < entries.len() && i != j ==> entries[i].0 != entries[j].0
}

/// Whether an entry stands under `id`.
pub open spec fn has_id<X>(entries: Seq<(WindowId, X)>, id: WindowId) -> bool {
    exists|i: int| 0 <= i < entries.len() && entries[i].0 == id
}

/// `position_from` finds an entry exactly when there is one, and what it
/// finds is the first.
pub proof fn lemma_position_from<X>(entries: Seq<(WindowId, X)>, id: WindowId, from: int)
    requires
        0 <= from <= entries.len(),
    ensures
        from <= position_from(entries, id, from) <= entries.len(),
        position_from(entries, id, from) < entries.len() ==> entries[position_from(
            entries,
            id,
            from,
        )].0 == id,
        forall|i: int| from <= i < position_from(entries, id, from) ==> entries[i].0 != id,
    decreases entries.len() - from,
{
    if from < entries.len() && entries[from].0 != id {
        lemma_position_from(entries, id, from + 1);
    }
}

/// `position` finds an entry exactly when one stands under the id.
pub proof fn lemma_position<X>(entries: Seq<(WindowId, X)>, id: WindowId)
    ensures
        0 <= position(entries, id) <= entries.len(),
        position(entries, id) < entries.len() <==> has_id(entries, id),
        position(entries, id) < entries.len() ==> entries[position(entries, id)].0 == id,
        forall|i: int| 0 <= i < position(entries, id) ==> entries[i].0 != id,
{
    lemma_position_from(entries, id, 0);
}

/// Where the first live window at or after `from` stands whose handle
/// offers an idle handle, or the number of windows when there is none.
pub open spec fn wakeable_from<W>(live: Seq<(WindowId, Window<W>)>, from: int) -> int
    decreases live.len() - from,
{
    if from < 0 || from >= live.len() {
        live.len() as int
    } else if live[from].1.handle.idle is Some {
        from
    } else {
        wakeable_from(live, from + 1)
    }
}

/// `wakeable_from` finds a window exactly when one can be woken, and what
/// it finds is the first.
pub proof fn lemma_wakeable_from<W>(live: Seq<(WindowId, Window<W>)>, from: int)
    requires
        0 <= from <= live.len(),
    ensures
        from <= wakeable_from(live, from) <= live.len(),
        wakeable_from(live, from) < live.len() ==> live[wakeable_from(
            live,
            from,
        )].1.handle.idle is Some,
        forall|i: int| from <= i < wakeable_from(live, from) ==> live[i].1.handle.idle is None,
    decreases live.len() - from,
{
    if from < live.len() && live[from].1.handle.idle is None {
        lemma_wakeable_from(live, from + 1);
    }
}

/// Where no id stands twice, the search for the id of an entry ends at that
/// entry.
pub proof fn lemma_position_of_entry<X>(entries: Seq<(WindowId, X)>, at: int)
    requires
        distinct_ids(entries),
        0 <= at < entries.len(),
    ensures
        position(entries, entries[at].0) == at,
{
    lemma_position(entries, entries[at].0);
}

/// The registry, as plain mathematics.
pub ghost struct WindowsModel<W> {
    /// The windows that wait for the platform, in the order in which they
    /// were added.
    pub pending: Seq<(WindowId, PendingWindow<W>)>,
    /// The live windows, in the order in which they were connected. Every
    /// pass over the windows goes in this order.
    pub live: Seq<(WindowId, Window<W>)>,
}

impl<W> WindowsModel<W> {
    /// No id stands twice: not among the waiting windows, not among the live
    /// ones, and not once in each.
    pub open spec fn wf(self) -> bool {
        &&& distinct_ids(self.pending)
        &&& distinct_ids(self.live)
        &&& forall|i: int, j: int|
            0 <= i < self.pending.len() && 0 <= j < self.live.len() ==> self.pending[i].0
                != self.live[j].0
    }

    pub open spec fn empty() -> WindowsModel<W> {
        WindowsModel { pending: Seq::empty(), live: Seq::empty() }
    }

    pub open spec fn is_pending(self, id: WindowId) -> bool {
        has_id(self.pending, id)
    }

    pub open spec fn is_live(self, id: WindowId) -> bool {
        has_id(self.live, id)
    }

    /// The live window under `id`.
    pub open spec fn window(self, id: WindowId) -> Window<W>
        recommends
            self.is_live(id),
    {
        self.live[position(self.live, id)].1
    }

    /// The registry with another window in place of the live one under `id`.
    pub open spec fn with_window(self, id: WindowId, window: Window<W>) -> WindowsModel<W>
        recommends
            self.is_live(id),
    {
        WindowsModel { live: self.live.update(position(self.live, id), (id, window)), ..self }
    }

    /// Where the first live window stands whose handle offers an idle
    /// handle, or the number of live windows when none can be woken.
    pub open spec fn first_wakeable(self) -> int {
        wakeable_from(self.live, 0)
    }

    pub open spec fn add(self, id: WindowId, window: PendingWindow<W>) -> WindowsModel<W> {
        WindowsModel { pending: self.pending.push((id, window)), ..self }
    }

    /// The waiting window under `id` becomes the last of the live ones. Where
    /// none waits under `id`, nothing changes.
    pub open spec fn connect(self, id: WindowId, handle: WindowHandle) -> WindowsModel<W> {
        if self.is_pending(id) {
            let at = position(self.pending, id);
            WindowsModel {
                pending: self.pending.remove(at),
                live: self.live.push((id, self.pending[at].1.connected(handle))),
            }
        } else {
            self
        }
    }

    /// The live window under `id` leaves. Where none is live under `id`,
    /// nothing changes.
    pub open spec fn remove(self, id: WindowId) -> WindowsModel<W> {
        if self.is_live(id) {
            WindowsModel { live: self.live.remove(position(self.live, id)), ..self }
        } else {
            self
        }
    }
}

/// Putting another value under the id at a place moves no id: every search
/// ends where it ended before.
pub proof fn lemma_update_keeps_position<X>(
    entries: Seq<(WindowId, X)>,
    at: int,
    value: X,
    id: WindowId,
    from: int,
)
    requires
        0 <= at < entries.len(),
        0 <= from <= entries.len(),
    ensures
        position_from(entries.update(at, (entries[at].0, value)), id, from) == position_from(
            entries,
            id,
            from,
        ),
    decreases entries.len() - from,
{
    let changed = entries.update(at, (entries[at].0, value));
    if from < entries.len() {
        assert(changed[from].0 == entries[from].0);
        if entries[from].0 != id {
            lemma_update_keeps_position(entries, at, value, id, from + 1);
        }
    }
}

/// A registry in which the live window at a place was changed in place has
/// the ids that it had.
pub proof fn lemma_update_keeps_ids<W>(windows: WindowsModel<W>, at: int, window: Window<W>)
    requires
        0 <= at < windows.live.len(),
    ensures
        ({
            let changed = WindowsModel {
                live: windows.live.update(at, (windows.live[at].0, window)),
                ..windows
            };
            &&& windows.wf() ==> changed.wf()
            &&& forall|id: WindowId| changed.is_live(id) == windows.is_live(id)
            &&& forall|id: WindowId| changed.is_pending(id) == windows.is_pending(id)
            &&& forall|id: WindowId| #[trigger]
                position(changed.live, id) == position(windows.live, id)
        }),
{
    let changed = WindowsModel {
        live: windows.live.update(at, (windows.live[at].0, window)),
        ..windows
    };
    assert forall|id: WindowId| #[trigger]
        position(changed.live, id) == position(windows.live, id) by {
        lemma_update_keeps_position(windows.live, at, window, id, 0);
    }
    assert forall|id: WindowId| changed.is_live(id) == windows.is_live(id) by {
        lemma_position(changed.live, id);
        lemma_position(windows.live, id);
    }
    if windows.wf() {
        assert forall|i: int, j: int|
            0 <= i < changed.live.len() && 0 <= j < changed.live.len() && i != j implies changed.live[i].0
            != changed.live[j].0 by {
            assert(changed.live[i].0 == windows.live[i].0);
            assert(changed.live[j].0 == windows.live[j].0);
        }
        assert forall|i: int, j: int|
            0 <= i < changed.pending.len() && 0 <= j < changed.live.len() implies changed.pending[i].0
            != changed.live[j].0 by {
            assert(changed.live[j].0 == windows.live[j].0);
        }
    }
}

/// A registry in which the live window under an id was changed in place has
/// the ids that it had.
pub proof fn lemma_with_window_keeps_ids<W>(windows: WindowsModel<W>, id: WindowId, window: Window<W>)
    requires
        windows.is_live(id),
    ensures
        windows.wf() ==> windows.with_window(id, window).wf(),
        forall|other: WindowId| windows.with_window(id, window).is_live(other) == windows.is_live(other),
        forall|other: WindowId|
            windows.with_window(id, window).is_pending(other) == windows.is_pending(other),
        forall|other: WindowId| #[trigger]
            position(windows.with_window(id, window).live, other) == position(windows.live, other),
{
    lemma_position(windows.live, id);
    lemma_update_keeps_ids(windows, position(windows.live, id), window);
}

/// Whatever window is put in place of the live one under an id, the
/// registry has the ids that it had.
pub proof fn lemma_with_any_window_keeps_ids<W>(windows: WindowsModel<W>, id: WindowId)
    requires
        windows.is_live(id),
    ensures
        forall|window: Window<W>|
            {
                let changed = #[trigger] windows.with_window(id, window);
                &&& windows.wf() ==> changed.wf()
                &&& forall|other: WindowId| changed.is_live(other) == windows.is_live(other)
                &&& forall|other: WindowId| changed.is_pending(other) == windows.is_pending(other)
                &&& changed.window(id) == window
            },
{
    assert forall|window: Window<W>|
        {
            let changed = #[trigger] windows.with_window(id, window);
            &&& windows.wf() ==> changed.wf()
            &&& forall|other: WindowId| changed.is_live(other) == windows.is_live(other)
            &&& forall|other: WindowId| changed.is_pending(other) == windows.is_pending(other)
            &&& changed.window(id) == window
        } by {
        lemma_with_window_keeps_ids(windows, id, window);
        lemma_position(windows.live, id);
    }
}

/// What connecting a window does to the registry: the ids stay distinct,
/// every live window stays live, and the window that waited is live and
/// waits no longer.
pub proof fn lemma_connect<W>(windows: WindowsModel<W>, id: WindowId, handle: WindowHandle)
    requires
        windows.wf(),
    ensures
        windows.connect(id, handle).wf(),
        forall|other: WindowId| windows.is_live(other) ==> windows.connect(id, handle).is_live(other),
        windows.is_pending(id) ==> windows.connect(id, handle).is_live(id) && !windows.connect(
            id,
            handle,
        ).is_pending(id),
        !windows.is_pending(id) ==> windows.connect(id, handle) == windows,
{
    let after = windows.connect(id, handle);
    lemma_position(windows.pending, id);
    if windows.is_pending(id) {
        let at = position(windows.pending, id);
        assert forall|other: WindowId| windows.is_live(other) implies after.is_live(other) by {
            let i = choose|i: int| 0 <= i < windows.live.len() && windows.live[i].0 == other;
            assert(after.live[i].0 == other);
        }
        assert(after.live[windows.live.len() as int].0 == id);
        assert forall|i: int| 0 <= i < after.pending.len() implies after.pending[i].0 != id by {
            if i < at {
                assert(after.pending[i] == windows.pending[i]);
            } else {
                assert(after.pending[i] == windows.pending[i + 1]);
            }
        }
        assert forall|i: int, j: int|
            0 <= i < after.pending.len() && 0 <= j < after.pending.len() && i != j implies after.pending[i].0
            != after.pending[j].0 by {
            let ii = if i < at { i } else { i + 1 };
            let jj = if j < at { j } else { j + 1 };
            assert(after.pending[i] == windows.pending[ii]);
            assert(after.pending[j] == windows.pending[jj]);
        }
        assert forall|i: int, j: int|
            0 <= i < after.live.len() && 0 <= j < after.live.len() && i != j implies after.live[i].0
            != after.live[j].0 by {
            if i < windows.live.len() {
                assert(after.live[i] == windows.live[i]);
            }
            if j < windows.live.len() {
                assert(after.live[j] == windows.live[j]);
            }
        }
        assert forall|i: int, j: int|
            0 <= i < after.pending.len() && 0 <= j < after.live.len() implies after.pending[i].0
            != after.live[j].0 by {
            let ii = if i < at { i } else { i + 1 };
            assert(after.pending[i] == windows.pending[ii]);
            if j < windows.live.len() {
                assert(after.live[j] == windows.live[j]);
            }
        }
    }
}

/// What adding a waiting window does to the registry: the ids stay distinct
/// where the new id was not in use, and the live windows are as they were.
pub proof fn lemma_add<W>(windows: WindowsModel<W>, id: WindowId, window: PendingWindow<W>)
    requires
        windows.wf(),
        !windows.is_pending(id),
        !windows.is_live(id),
    ensures
        windows.add(id, window).wf(),
        windows.add(id, window).is_pending(id),
        windows.add(id, window).live == windows.live,
{
    let after = windows.add(id, window);
    assert(after.pending[windows.pending.len() as int].0 == id);
    assert forall|i: int, j: int|
        0 <= i < after.pending.len() && 0 <= j < after.pending.len() && i != j implies after.pending[i].0
        != after.pending[j].0 by {
        if i < windows.pending.len() {
            assert(after.pending[i] == windows.pending[i]);
        }
        if j < windows.pending.len() {
            assert(after.pending[j] == windows.pending[j]);
        }
    }
    assert forall|i: int, j: int|
        0 <= i < after.pending.len() && 0 <= j < after.live.len() implies after.pending[i].0
        != after.live[j].0 by {
        if i < windows.pending.len() {
            assert(after.pending[i] == windows.pending[i]);
        }
    }
}

/// Why an id that is in use must not be added again: with it the registry
/// would hold the id twice, among the waiting windows or once on each side.
pub proof fn lemma_add_of_id_in_use<W>(windows: WindowsModel<W>, id: WindowId, window: PendingWindow<W>)
    requires
        windows.is_pending(id) || windows.is_live(id),
    ensures
        !windows.add(id, window).wf(),
{
    let after = windows.add(id, window);
    let last = windows.pending.len() as int;
    assert(after.pending[last].0 == id);
    if windows.is_pending(id) {
        let i = choose|i: int| 0 <= i < windows.pending.len() && windows.pending[i].0 == id;
        assert(after.pending[i].0 == id);
    } else {
        let j = choose|j: int| 0 <= j < windows.live.len() && windows.live[j].0 == id;
        assert(after.live[j].0 == id);
    }
}

/// What removing a live window does to the registry: the ids stay distinct,
/// the window is live no longer, and every other window is live exactly if it
/// was.
pub proof fn lemma_remove<W>(windows: WindowsModel<W>, id: WindowId)
    requires
        windows.wf(),
    ensures
        windows.remove(id).wf(),
        !windows.remove(id).is_live(id),
        forall|other: WindowId|
            other != id ==> windows.remove(id).is_live(other) == windows.is_live(other),
        windows.remove(id).pending == windows.pending,
{
    let after = windows.remove(id);
    lemma_position(windows.live, id);
    if windows.is_live(id) {
        let at = position(windows.live, id);
        assert forall|i: int| 0 <= i < after.live.len() implies after.live[i] == windows.live[if i
            < at {
            i
        } else {
            i + 1
        }] by {}
        assert forall|other: WindowId| other != id implies after.is_live(other) == windows.is_live(
            other,
        ) by {
            if windows.is_live(other) {
                let i = choose|i: int| 0 <= i < windows.live.len() && windows.live[i].0 == other;
                let ii = if i < at { i } else { i - 1 };
                assert(after.live[ii].0 == other);
            }
            if after.is_live(other) {
                let i = choose|i: int| 0 <= i < after.live.len() && after.live[i].0 == other;
                let ii = if i < at { i } else { i + 1 };
                assert(windows.live[ii].0 == other);
            }
        }
        assert forall|i: int, j: int|
            0 <= i < after.live.len() && 0 <= j < after.live.len() && i != j implies after.live[i].0
            != after.live[j].0 by {
            let ii = if i < at { i } else { i + 1 };
            let jj = if j < at { j } else { j + 1 };
            assert(after.live[i] == windows.live[ii]);
            assert(after.live[j] == windows.live[jj]);
        }
        assert forall|i: int, j: int|
            0 <= i < after.pending.len() && 0 <= j < after.live.len() implies after.pending[i].0
            != after.live[j].0 by {
            let jj = if j < at { j } else { j + 1 };
            assert(after.live[j] == windows.live[jj]);
        }
        if after.is_live(id) {
            let i = choose|i: int| 0 <= i < after.live.len() && after.live[i].0 == id;
            let ii = if i < at { i } else { i + 1 };
            assert(after.live[i] == windows.live[ii]);
        }
    }
}

/// All windows of the application.
///
/// The live windows are kept in the order in which they were connected, and
/// every pass over them goes in that order. The order is part of the
/// contract: it does not depend on how the ids compare or hash.
pub struct Windows<W> {
    pending: Vec<(WindowId, PendingWindow<W>)>,
    windows: Vec<(WindowId, Window<W>)>,
}

impl<W> View for Windows<W> {
    type V = WindowsModel<W>;

    closed spec fn view(&self) -> WindowsModel<W> {
        WindowsModel { pending: self.pending@, live: self.windows@ }
    }
}

impl<W> Default for Windows<W> {
    fn default() -> (windows: Windows<W>)
        ensures
            windows@ == WindowsModel::<W>::empty(),
            windows@.wf(),
    {
        Windows::new()
    }
}

impl<W> Windows<W> {
    pub fn new() -> (windows: Windows<W>)
        ensures
            windows@ == WindowsModel::<W>::empty(),
            windows@.wf(),
    {
        Windows { pending: Vec::new(), windows: Vec::new() }
    }

    fn pending_position(&self, id: WindowId) -> (at: usize)
        ensures
            at == position(self.pending@, id),
    {
        let mut at: usize = 0;
        while at < self.pending.len()
            invariant
                at <= self.pending.len(),
                position_from(self.pending@, id, at as int) == position(self.pending@, id),
            decreases self.pending.len() - at,
        {
            if self.pending[at].0 == id {
                return at;
            }
            at += 1;
        }
        at
    }

    /// Where the live window under `id` stands in the order of the passes,
    /// or the number of live windows when none is live under `id`.
    pub fn live_position(&self, id: WindowId) -> (at: usize)
        ensures
            at == position(self@.live, id),
            at <= self@.live.len(),
            at < self@.live.len() <==> self@.is_live(id),
            at < self@.live.len() ==> self@.live[at as int].0 == id,
    {
        let mut at: usize = 0;
        proof {
            lemma_position(self.windows@, id);
        }
        while at < self.windows.len()
            invariant
                at <= self.windows.len(),
                position_from(self.windows@, id, at as int) == position(self.windows@, id),
            decreases self.windows.len() - at,
        {
            if self.windows[at].0 == id {
                return at;
            }
            at += 1;
        }
        at
    }

    /// Where the first live window stands, in the order of the passes, whose
    /// handle offers an idle handle; the number of live windows when none
    /// can be woken.
    pub fn first_wakeable(&self) -> (at: usize)
        ensures
            at == self@.first_wakeable(),
            at <= self@.live.len(),
            at < self@.live.len() ==> self@.live[at as int].1.handle.idle is Some,
    {
        let mut at: usize = 0;
        proof {
            lemma_wakeable_from(self.windows@, 0);
        }
        while at < self.windows.len()
            invariant
                at <= self.windows.len(),
                wakeable_from(self.windows@, at as int) == wakeable_from(self.windows@, 0),
            decreases self.windows.len() - at,
        {
            if self.windows[at].1.handle.idle.is_some() {
                return at;
            }
            at += 1;
        }
        at
    }

    /// Whether `id` is in use, by a waiting window or by a live one.
    pub fn contains(&self, id: WindowId) -> (used: bool)
        ensures
            used == (self@.is_pending(id) || self@.is_live(id)),
    {
        proof {
            lemma_position(self.pending@, id);
        }
        self.pending_position(id) < self.pending.len() || self.live_position(id)
            < self.windows.len()
    }

    /// The number of live windows.
    pub fn len(&self) -> (n: usize)
        ensures
            n == self@.live.len(),
    {
        self.windows.len()
    }

    /// The id of the live window at a place in the order of the passes.
    pub fn id_at(&self, at: usize) -> (id: WindowId)
        requires
            at < self@.live.len(),
        ensures
            id == self@.live[at as int].0,
    {
        self.windows[at].0
    }

    /// Puts a window among those that wait for the platform. An id that is in
    /// use must not be added again.
    pub fn add(&mut self, id: WindowId, win: PendingWindow<W>)
        requires
            old(self)@.wf(),
            !old(self)@.is_pending(id),
            !old(self)@.is_live(id),
        ensures
            final(self)@ == old(self)@.add(id, win),
            final(self)@.wf(),
    {
        proof {
            lemma_add(self@, id, win);
        }
        self.pending.push((id, win));
    }

    /// Makes the window that waits under `id` live, with the handle that the
    /// platform has for it. The result is `false`, and nothing changes, where
    /// no window waits under `id`.
    pub fn connect(&mut self, id: WindowId, handle: WindowHandle) -> (connected: bool)
        requires
            old(self)@.wf(),
        ensures
            connected == old(self)@.is_pending(id),
            final(self)@ == old(self)@.connect(id, handle),
            final(self)@.wf(),
    {
        proof {
            lemma_position(self.pending@, id);
            lemma_connect(self@, id, handle);
        }
        let at = self.pending_position(id);
        if at < self.pending.len() {
            let entry = self.pending.remove(at);
            let win = entry.1.into_window(handle);
            self.windows.push((id, win));
            true
        } else {
            false
        }
    }

    /// Takes the live window under `id` out and gives its handle back, for
    /// the last cleanup. Where none is live under `id`, nothing changes.
    pub fn remove(&mut self, id: WindowId) -> (handle: Option<WindowHandle>)
        requires
            old(self)@.wf(),
        ensures
            final(self)@ == old(self)@.remove(id),
            final(self)@.wf(),
            handle == if old(self)@.is_live(id) {
                Some(old(self)@.window(id).handle)
            } else {
                None
            },
    {
        proof {
            lemma_remove(self@, id);
        }
        let at = self.live_position(id);
        if at < self.windows.len() {
            let entry = self.windows.remove(at);
            Some(entry.1.handle)
        } else {
            None
        }
    }

    /// The handle of the live window under `id`.
    pub fn handle(&self, id: WindowId) -> (handle: Option<WindowHandle>)
        ensures
            handle == if self@.is_live(id) {
                Some(self@.window(id).handle)
            } else {
                None
            },
    {
        let at = self.live_position(id);
        if at < self.windows.len() {
            Some(self.windows[at].1.handle)
        } else {
            None
        }
    }

    /// The live window under `id`.
    pub fn get(&self, id: WindowId) -> (win: Option<&Window<W>>)
        ensures
            win is Some == self@.is_live(id),
            win is Some ==> *win->0 == self@.window(id),
    {
        let at = self.live_position(id);
        if at < self.windows.len() {
            Some(&self.windows[at].1)
        } else {
            None
        }
    }

    /// The live window under `id`, to be changed in place.
    pub fn get_mut(&mut self, id: WindowId) -> (win: Option<&mut Window<W>>)
        ensures
            win is Some == old(self)@.is_live(id),
            match win {
                Some(w) => *w == old(self)@.window(id) && final(self)@ == old(self)@.with_window(
                    id,
                    *final(w),
                ),
                None => final(self)@ == old(self)@,
            },
    {
        let at = self.live_position(id);
        if at < self.windows.len() {
            Some(&mut self.windows[at].1)
        } else {
            None
        }
    }

    /// The live window at a place in the order of the passes, to be changed
    /// in place. A pass over all live windows takes the places from 0 up to
    /// [`Windows::len`].
    pub fn iter_mut(&mut self, at: usize) -> (win: &mut Window<W>)
        requires
            at < old(self)@.live.len(),
        ensures
            *win == old(self)@.live[at as int].1,
            final(self)@ == (WindowsModel {
                live: old(self)@.live.update(at as int, (old(self)@.live[at as int].0, *final(win))),
                ..old(self)@
            }),
    {
        &mut self.windows[at].1
    }
}

} // verus!
