//! What holds of the dispatch whatever the windows, the delegate and the
//! platform do.

use vstd::prelude::*;
use crate::command::{Command, FileInfo, Payload, Selector, Target, WindowDesc};
use crate::delegate::{AppDelegate, DelegateCall};
use crate::event::Event;
use crate::ids::WindowId;
use crate::model::{AppModel, Asked, DRAIN_LIMIT};
use crate::registry::{
    lemma_add, lemma_connect, lemma_position, lemma_position_of_entry, lemma_remove,
    lemma_update_keeps_ids, lemma_wakeable_from, lemma_with_any_window_keeps_ids, position,
    wakeable_from,
};
use crate::shell::{Effect, Level, Notice, PlatformError, ShellReply, WindowHandle};
use crate::window::{settled, PendingWindow, WidgetTree, Window};

verus! {

/// What follows a state that follows another, follows that other.
pub proof fn lemma_follows_trans<W: WidgetTree, D: AppDelegate<W::Data, W::Env>>(
    first: AppModel<W, D>,
    second: AppModel<W, D>,
    third: AppModel<W, D>,
)
    requires
        second.follows(first),
        third.follows(second),
    ensures
        third.follows(first),
{
    assert(first.queue =~= third.queue.subrange(0, first.queue.len() as int));
    assert(first.effects =~= third.effects.subrange(0, first.effects.len() as int));
}

/// A call of the delegate leaves what waits in its place.
pub proof fn lemma_with_delegate_follows<W: WidgetTree, D: AppDelegate<W::Data, W::Env>>(
    m: AppModel<W, D>,
    id: WindowId,
    call: DelegateCall,
)
    ensures
        m.with_delegate(id, call).0.follows(m),
        m.with_delegate(id, call).0.windows == m.windows,
        m.with_delegate(id, call).0.host == m.host,
        m.with_delegate(id, call).0.effects == m.effects,
{
}

/// An event for one window leaves what waits in its place.
pub proof fn lemma_deliver_follows<W: WidgetTree, D: AppDelegate<W::Data, W::Env>>(
    m: AppModel<W, D>,
    id: WindowId,
    event: Event,
)
    ensures
        m.deliver(id, event).0.follows(m),
        m.deliver(id, event).0.host == m.host,
        m.deliver(id, event).0.effects == m.effects,
        m.deliver(id, event).0.windows.pending == m.windows.pending,
        m.deliver(id, event).0.windows.live.len() == m.windows.live.len(),
{
    lemma_position(m.windows.live, id);
}

/// An event that is offered to the windows in turn leaves what waits in its
/// place.
pub proof fn lemma_broadcast_follows<W: WidgetTree, D: AppDelegate<W::Data, W::Env>>(
    m: AppModel<W, D>,
    event: Event,
    from: int,
)
    ensures
        m.broadcast(event, from).0.follows(m),
        m.broadcast(event, from).0.host == m.host,
        m.broadcast(event, from).0.effects == m.effects,
        m.broadcast(event, from).0.windows.pending == m.windows.pending,
        m.broadcast(event, from).0.windows.live.len() == m.windows.live.len(),
    decreases m.windows.live.len() - from,
{
    if 0 <= from < m.windows.live.len() {
        let o = m.windows.live[from].1.root.event_outcome(event, m.data, m.env);
        let next = AppModel { data: o.data, ..m.with_root_at(from, o.tree) }.enqueue(o.commands);
        if !o.handled {
            lemma_broadcast_follows(next, event, from + 1);
            lemma_follows_trans(m, next, next.broadcast(event, from + 1).0);
        }
    }
}

/// The dispatch of an event leaves what waits in its place.
pub proof fn lemma_do_event_follows<W: WidgetTree, D: AppDelegate<W::Data, W::Env>>(
    m: AppModel<W, D>,
    source: WindowId,
    event: Event,
)
    ensures
        m.do_event(source, event).0.follows(m),
        m.do_event(source, event).0.host == m.host,
        m.do_event(source, event).0.windows.pending == m.windows.pending,
        m.do_event(source, event).0.windows.live.len() == m.windows.live.len(),
{
    let (next, passed) = m.delegate_event(source, event);
    lemma_with_delegate_follows(m, source, DelegateCall::Event(event));
    lemma_position(m.windows.live, source);
    match passed {
        Some(event) => {
            lemma_deliver_follows(next, source, event);
            lemma_broadcast_follows(next, event, 0);
            lemma_follows_trans(m, next, next.route(source, event).0);
        },
        None => {},
    }
}

/// The update of the windows touches nothing but their trees.
pub proof fn lemma_update_pass_follows<W: WidgetTree, D: AppDelegate<W::Data, W::Env>>(
    m: AppModel<W, D>,
    from: int,
)
    ensures
        m.update_pass(from).follows(m),
        m.update_pass(from).host == m.host,
        m.update_pass(from).queue == m.queue,
        m.update_pass(from).effects == m.effects,
        m.update_pass(from).data == m.data,
        m.update_pass(from).windows.pending == m.windows.pending,
        m.update_pass(from).windows.live.len() == m.windows.live.len(),
    decreases m.windows.live.len() - from,
{
    if 0 <= from < m.windows.live.len() {
        let next = m.with_root_at(from, m.windows.live[from].1.root.updated(m.data, m.env));
        lemma_update_pass_follows(next, from + 1);
    }
}

/// The pass in which the windows settle leaves what waits in its place.
pub proof fn lemma_invalidate_pass_follows<W: WidgetTree, D: AppDelegate<W::Data, W::Env>>(
    m: AppModel<W, D>,
    from: int,
)
    ensures
        m.invalidate_pass(from).follows(m),
        m.invalidate_pass(from).host == m.host,
        m.invalidate_pass(from).data == m.data,
        m.invalidate_pass(from).windows.pending == m.windows.pending,
        m.invalidate_pass(from).windows.live.len() == m.windows.live.len(),
    decreases m.windows.live.len() - from,
{
    if 0 <= from < m.windows.live.len() {
        let o = m.windows.live[from].1.root.invalidate_outcome(m.data, m.env);
        let settled = m.with_root_at(from, o.tree).enqueue(o.commands);
        let asked = if o.redraw {
            settled.emit(Effect::Invalidate(m.windows.live[from].1.handle))
        } else {
            settled
        };
        lemma_invalidate_pass_follows(asked, from + 1);
        lemma_follows_trans(m, asked, asked.invalidate_pass(from + 1));
    }
}

/// Making a window the one to wake leaves what waits in its place.
pub proof fn lemma_set_idle_handler_follows<W: WidgetTree, D: AppDelegate<W::Data, W::Env>>(
    m: AppModel<W, D>,
    id: WindowId,
)
    ensures
        m.set_ext_event_idle_handler(id).follows(m),
        m.set_ext_event_idle_handler(id).windows == m.windows,
        m.set_ext_event_idle_handler(id).queue == m.queue,
{
}

/// The connection of a window leaves what waits in its place.
pub proof fn lemma_connect_follows<W: WidgetTree, D: AppDelegate<W::Data, W::Env>>(
    m: AppModel<W, D>,
    id: WindowId,
    handle: WindowHandle,
)
    ensures
        m.connect(id, handle).follows(m),
{
    let moved = AppModel { windows: m.windows.connect(id, handle), ..m };
    let noted = if m.windows.is_pending(id) {
        moved
    } else {
        moved.log(Level::Error, Notice::NoPendingWindow(id))
    };
    let woken = if noted.host.waker is None {
        noted.set_ext_event_idle_handler(id)
    } else {
        noted
    };
    lemma_set_idle_handler_follows(noted, id);
    lemma_with_delegate_follows(woken, id, DelegateCall::WindowAdded(id));
    lemma_follows_trans(m, noted, woken);
    lemma_follows_trans(m, woken, m.connect(id, handle));
}

/// The removal of a window leaves what waits in its place.
pub proof fn lemma_remove_window_follows<W: WidgetTree, D: AppDelegate<W::Data, W::Env>>(
    m: AppModel<W, D>,
    id: WindowId,
)
    ensures
        m.remove_window(id).follows(m),
{
    let told = m.with_delegate(id, DelegateCall::WindowRemoved(id)).0;
    lemma_with_delegate_follows(m, id, DelegateCall::WindowRemoved(id));
    let gone = AppModel { windows: told.windows.remove(id), ..told };
    if gone.host.waker_id() == Some(id) {
        let cleared = AppModel { host: gone.host.clear_idle(), ..gone };
        let at = cleared.windows.first_wakeable();
        if at < cleared.windows.live.len() {
            lemma_set_idle_handler_follows(cleared, cleared.windows.live[at].0);
        }
    }
    lemma_follows_trans(m, told, m.remove_window(id));
}

/// What follows a file dialog leaves what waits in its place.
pub proof fn lemma_file_chosen_follows<W: WidgetTree, D: AppDelegate<W::Data, W::Env>>(
    m: AppModel<W, D>,
    id: WindowId,
    selector: Selector,
    choice: Option<FileInfo>,
)
    ensures
        m.file_chosen(id, selector, choice).follows(m),
{
    match choice {
        Some(info) => {
            lemma_do_event_follows(
                m,
                id,
                Event::TargetedCommand(
                    Target::Window(id),
                    Command { selector, payload: Payload::FileInfo(info) },
                ),
            );
        },
        None => {},
    }
}

/// The creation of a window leaves what waits in its place.
pub proof fn lemma_new_window_follows<W: WidgetTree, D: AppDelegate<W::Data, W::Env>>(
    m: AppModel<W, D>,
    command: Command,
    made: Result<WindowHandle, PlatformError>,
)
    ensures
        m.try_new_window(command, made).0.follows(m),
        m.new_window(command, made).follows(m),
{
    match command.window_desc() {
        Some(desc) => {
            if m.can_create(command) {
                let waiting = m.add_window(desc.id, PendingWindow { root: W::built(desc) });
                match made {
                    Ok(handle) => {
                        lemma_connect_follows(waiting, desc.id, handle);
                        lemma_follows_trans(m, waiting, waiting.connect(desc.id, handle));
                    },
                    Err(_) => {},
                }
            }
        },
        None => {},
    }
}

/// Whatever command is handled, and whatever the platform answers, what
/// waits stays in its place: the commands in the queue are neither taken
/// out nor passed by, the effects are only added to, and the inbox and the
/// environment are not touched.
pub proof fn lemma_handle_cmd_follows<W: WidgetTree, D: AppDelegate<W::Data, W::Env>>(
    m: AppModel<W, D>,
    me: WindowId,
    target: Target,
    command: Command,
    reply: ShellReply,
)
    ensures
        m.handle_cmd(me, target, command, reply).follows(m),
{
    match target {
        Target::Window(id) => {
            lemma_file_chosen_follows(m, id, Selector::OpenFile, reply.file);
            lemma_file_chosen_follows(m, id, Selector::SaveFile, reply.file);
            lemma_new_window_follows(m, command, reply.window);
            lemma_do_event_follows(m, id, Event::Paste(reply.clipboard));
            lemma_do_event_follows(m, id, Event::TargetedCommand(target, command));
        },
        Target::Widget(_) => {
            lemma_do_event_follows(m, me, Event::TargetedCommand(target, command));
        },
    }
}

/// An event that the delegate swallows reaches no window: every window, live
/// or waiting, is as it was, and the event counts as handled.
pub proof fn lemma_swallowed_event_reaches_no_window<
    W: WidgetTree,
    D: AppDelegate<W::Data, W::Env>,
>(m: AppModel<W, D>, source: WindowId, event: Event)
    requires
        m.delegate is Some,
        m.delegate->0.event_outcome(source, event, m.data, m.env).event is None,
    ensures
        m.do_event(source, event).1,
        m.do_event(source, event).0.windows == m.windows,
{
}

/// Without a delegate every event goes on to the windows as it is.
pub proof fn lemma_no_delegate_passes_event<W: WidgetTree, D: AppDelegate<W::Data, W::Env>>(
    m: AppModel<W, D>,
    source: WindowId,
    event: Event,
)
    requires
        m.delegate is None,
    ensures
        m.do_event(source, event) == m.route(source, event),
{
}

/// A broadcast stops at the first window that says it handled the event.
///
/// The windows are asked in the order of the registry, from the place `from`
/// on. Each window that is asked finds the data as the window before it left
/// it, and is afterwards what its tree makes of the event. Every window
/// that answers "not handled" is followed by the next; the first that
/// answers "handled" is the last to be asked. The windows behind it, and
/// those before `from`, are untouched. The broadcast reports "handled"
/// exactly if the last window asked said so; if none did, all were asked.
pub proof fn lemma_broadcast_stops_at_first_taker<W: WidgetTree, D: AppDelegate<W::Data, W::Env>>(
    m: AppModel<W, D>,
    event: Event,
    from: int,
)
    requires
        0 <= from <= m.windows.live.len(),
    ensures
        ({
            let asked = m.asked(event, from);
            let after = m.broadcast(event, from).0;
            let handled = m.broadcast(event, from).1;
            &&& asked.len() <= m.windows.live.len() - from
            &&& after.windows.live.len() == m.windows.live.len()
            &&& asked.len() > 0 ==> asked[0].data == m.data
            &&& forall|i: int|
                0 <= i < asked.len() ==> {
                    let o = m.windows.live[from + i].1.root.event_outcome(
                        event,
                        (#[trigger] asked[i]).data,
                        m.env,
                    );
                    &&& asked[i].id == m.windows.live[from + i].0
                    &&& asked[i].handled == o.handled
                    &&& after.windows.live[from + i] == (
                        asked[i].id,
                        m.windows.live[from + i].1.with_root(o.tree),
                    )
                    &&& i + 1 < asked.len() ==> asked[i + 1].data == o.data
                    &&& i + 1 < asked.len() ==> !asked[i].handled
                    &&& i + 1 == asked.len() ==> after.data == o.data
                }
            &&& forall|j: int|
                from + asked.len() <= j < m.windows.live.len() ==> #[trigger] after.windows.live[j]
                    == m.windows.live[j]
            &&& forall|j: int|
                0 <= j < from ==> #[trigger] after.windows.live[j] == m.windows.live[j]
            &&& handled == (asked.len() > 0 && asked.last().handled)
            &&& !handled ==> asked.len() == m.windows.live.len() - from
        }),
    decreases m.windows.live.len() - from,
{
    if from < m.windows.live.len() {
        let o = m.windows.live[from].1.root.event_outcome(event, m.data, m.env);
        let next = AppModel { data: o.data, ..m.with_root_at(from, o.tree) }.enqueue(o.commands);
        let first = Asked::<W> {
            id: m.windows.live[from].0,
            data: m.data,
            handled: o.handled,
        };
        if !o.handled {
            lemma_broadcast_stops_at_first_taker(next, event, from + 1);
            let rest = next.asked(event, from + 1);
            let asked = m.asked(event, from);
            let after = m.broadcast(event, from).0;
            assert(asked == seq![first] + rest);
            assert(asked[0] == first);
            assert forall|i: int| 0 <= i < asked.len() implies {
                let o = m.windows.live[from + i].1.root.event_outcome(
                    event,
                    (#[trigger] asked[i]).data,
                    m.env,
                );
                &&& asked[i].id == m.windows.live[from + i].0
                &&& asked[i].handled == o.handled
                &&& after.windows.live[from + i] == (
                    asked[i].id,
                    m.windows.live[from + i].1.with_root(o.tree),
                )
                &&& i + 1 < asked.len() ==> asked[i + 1].data == o.data
                &&& i + 1 < asked.len() ==> !asked[i].handled
                &&& i + 1 == asked.len() ==> after.data == o.data
            } by {
                if i > 0 {
                    assert(asked[i] == rest[i - 1]);
                    assert(next.windows.live[from + 1 + (i - 1)] == m.windows.live[from + i]);
                    if i + 1 < asked.len() {
                        assert(asked[i + 1] == rest[i]);
                    }
                } else {
                    assert(after.windows.live[from] == next.windows.live[from]);
                    if rest.len() > 0 {
                        assert(asked[1] == rest[0]);
                    }
                }
            }
            assert forall|j: int| from + asked.len() <= j < m.windows.live.len() implies #[trigger] after.windows.live[j]
                == m.windows.live[j] by {
                assert(next.windows.live[j] == m.windows.live[j]);
            }
            assert forall|j: int| 0 <= j < from implies #[trigger] after.windows.live[j]
                == m.windows.live[j] by {
                assert(next.windows.live[j] == m.windows.live[j]);
            }
            if rest.len() > 0 {
                assert(asked.last() == rest.last());
            }
        }
    }
}

/// Once every window has settled, the settling pass changes nothing: no
/// tree changes, no repaint is asked for, no command is enqueued.
pub proof fn lemma_settled_pass_changes_nothing<W: WidgetTree, D: AppDelegate<W::Data, W::Env>>(
    m: AppModel<W, D>,
    from: int,
)
    requires
        m.all_settled(),
    ensures
        m.invalidate_pass(from) == m,
    decreases m.windows.live.len() - from,
{
    if 0 <= from < m.windows.live.len() {
        let o = m.windows.live[from].1.root.invalidate_outcome(m.data, m.env);
        assert(settled(m.windows.live[from].1.root, m.data, m.env));
        let same = m.with_root_at(from, o.tree).enqueue(o.commands);
        assert(same.windows.live =~= m.windows.live);
        assert(same.queue =~= m.queue);
        assert(same == m);
        lemma_settled_pass_changes_nothing(m, from + 1);
    }
}

/// A window id is never among the waiting windows and among the live ones
/// at once.
pub proof fn lemma_pending_or_live<W: WidgetTree, D: AppDelegate<W::Data, W::Env>>(
    m: AppModel<W, D>,
    id: WindowId,
)
    requires
        m.wf(),
    ensures
        !(m.windows.is_pending(id) && m.windows.is_live(id)),
{
}

/// Connecting an id under which no window waits leaves the registry as it
/// is and logs one error. Nothing else is logged; the one other effect that
/// can follow is the request for a wakeup, where the id belongs to a live
/// window that takes over as the window to wake.
pub proof fn lemma_connect_without_pending<W: WidgetTree, D: AppDelegate<W::Data, W::Env>>(
    m: AppModel<W, D>,
    id: WindowId,
    handle: WindowHandle,
)
    requires
        !m.windows.is_pending(id),
    ensures
        ({
            let after = m.connect(id, handle);
            let logged = m.effects.push(
                Effect::Log(Level::Error, Notice::NoPendingWindow(id)),
            );
            &&& after.windows == m.windows
            &&& after.effects == logged || (after.effects.len() == logged.len() + 1
                && after.effects.drop_last() == logged && after.effects.last() is ScheduleIdle)
        }),
{
    let noted = m.log(Level::Error, Notice::NoPendingWindow(id));
    let woken = if noted.host.waker is None {
        noted.set_ext_event_idle_handler(id)
    } else {
        noted
    };
    lemma_with_delegate_follows(woken, id, DelegateCall::WindowAdded(id));
    assert(woken.effects == noted.effects || woken.effects.drop_last() =~= noted.effects);
}

/// When the window that is woken for external events is destroyed, another
/// live window takes over whenever one of those left can be woken: the
/// first of them, in the order of the passes, whose handle offers an idle
/// handle. The new waker is another window than the one that went, it is
/// live, and it can be woken. Only where none of the windows left offers
/// an idle handle, or none is left, no window is designated.
pub proof fn lemma_waker_passes_on<W: WidgetTree, D: AppDelegate<W::Data, W::Env>>(
    m: AppModel<W, D>,
    id: WindowId,
)
    requires
        m.wf(),
        m.host.waker_id() == Some(id),
    ensures
        ({
            let left = m.windows.remove(id).live;
            let after = m.remove_window(id);
            &&& after.windows.live == left
            &&& !after.windows.is_live(id)
            &&& (exists|i: int| 0 <= i < left.len() && left[i].1.handle.idle is Some)
                ==> after.host.waker_id() is Some
            &&& after.host.waker_id() matches Some(v) ==> v != id && after.windows.is_live(v)
                && after.windows.window(v).handle.idle is Some && v == left[wakeable_from(
                left,
                0,
            )].0
            &&& (forall|i: int| 0 <= i < left.len() ==> left[i].1.handle.idle is None)
                ==> after.host.waker is None
        }),
{
    let told = m.with_delegate(id, DelegateCall::WindowRemoved(id)).0;
    lemma_with_delegate_follows(m, id, DelegateCall::WindowRemoved(id));
    let gone = AppModel { windows: told.windows.remove(id), ..told };
    lemma_remove(m.windows, id);
    let cleared = AppModel { host: gone.host.clear_idle(), ..gone };
    let left = cleared.windows.live;
    lemma_wakeable_from(left, 0);
    let at = wakeable_from(left, 0);
    if at < left.len() {
        let other = left[at].0;
        assert(cleared.windows.is_live(other));
        lemma_position_of_entry(left, at);
    }
}

/// The removal of a window that is not the one to wake leaves the
/// designation as it is.
pub proof fn lemma_waker_stays<W: WidgetTree, D: AppDelegate<W::Data, W::Env>>(
    m: AppModel<W, D>,
    id: WindowId,
)
    requires
        m.host.waker_id() != Some(id),
    ensures
        m.remove_window(id).host == m.host,
{
    lemma_with_delegate_follows(m, id, DelegateCall::WindowRemoved(id));
}

/// While no window is designated to be woken, the connection of any waiting
/// window whose handle offers an idle handle designates that window.
pub proof fn lemma_connect_installs_waker<W: WidgetTree, D: AppDelegate<W::Data, W::Env>>(
    m: AppModel<W, D>,
    id: WindowId,
    handle: WindowHandle,
)
    requires
        m.wf(),
        m.host.waker is None,
        m.windows.is_pending(id),
        handle.idle is Some,
    ensures
        m.connect(id, handle).host.waker == Some((id, handle.idle->0)),
        m.connect(id, handle).windows.is_live(id),
{
    lemma_connect(m.windows, id, handle);
    let moved = AppModel { windows: m.windows.connect(id, handle), ..m };
    lemma_position(moved.windows.live, id);
    lemma_position(m.windows.pending, id);
    assert(moved.windows.live[m.windows.live.len() as int].0 == id);
    assert(position(moved.windows.live, id) == m.windows.live.len()) by {
        assert forall|i: int| 0 <= i < m.windows.live.len() implies moved.windows.live[i].0
            != id by {
            assert(moved.windows.live[i] == m.windows.live[i]);
        }
    }
    let woken = moved.set_ext_event_idle_handler(id);
    lemma_with_delegate_follows(woken, id, DelegateCall::WindowAdded(id));
}

/// One step of a drain takes the oldest command and leaves the others in
/// their places: whatever is enqueued while the command is handled stands
/// behind them.
pub proof fn lemma_step_takes_oldest<W: WidgetTree, D: AppDelegate<W::Data, W::Env>>(
    m: AppModel<W, D>,
    me: WindowId,
    reply: ShellReply,
)
    requires
        m.queue.len() > 0,
    ensures
        m.queue.drop_first().is_prefix_of(m.step(me, reply).queue),
        m.step(me, reply) == (AppModel { queue: m.queue.drop_first(), ..m }).handle_cmd(
            me,
            m.queue[0].0,
            m.queue[0].1,
            reply,
        ),
{
    lemma_handle_cmd_follows(
        AppModel { queue: m.queue.drop_first(), ..m },
        me,
        m.queue[0].0,
        m.queue[0].1,
        reply,
    );
}

/// A drain handles the commands in the order in which they were enqueued.
///
/// The commands that were handled, followed by those that still wait, are
/// the commands that waited at the start followed by those that were
/// enqueued since, each in the order of its enqueuing. So a command is
/// handled before every command that was enqueued after it, and a command
/// that is enqueued in the middle of a drain is handled in that drain, after
/// all that waited when it came.
pub proof fn lemma_drain_is_fifo<W: WidgetTree, D: AppDelegate<W::Data, W::Env>>(
    m: AppModel<W, D>,
    me: WindowId,
    replies: Seq<ShellReply>,
)
    ensures
        m.queue.is_prefix_of(m.handled(me, replies) + m.run(me, replies).queue),
        replies.len() > 0 ==> (m.handled(me, replies.drop_last()) + m.run(
            me,
            replies.drop_last(),
        ).queue).is_prefix_of(m.handled(me, replies) + m.run(me, replies).queue),
        m.handled(me, replies).len() <= replies.len(),
    decreases replies.len(),
{
    if replies.len() == 0 {
        assert(m.handled(me, replies) + m.run(me, replies).queue =~= m.queue);
    } else {
        let shorter = replies.drop_last();
        lemma_drain_is_fifo(m, me, shorter);
        let before = m.run(me, shorter);
        let earlier = m.handled(me, shorter);
        let after = m.run(me, replies);
        let history = earlier + before.queue;
        let longer = m.handled(me, replies) + after.queue;
        if before.queue.len() > 0 {
            lemma_step_takes_oldest(before, me, replies.last());
            let rest = before.queue.drop_first();
            assert(after == before.step(me, replies.last()));
            assert(m.handled(me, replies) == earlier.push(before.queue[0]));
            assert(rest =~= after.queue.subrange(0, rest.len() as int));
            assert forall|i: int| 0 <= i < history.len() implies history[i] == longer[i] by {
                if i > earlier.len() {
                    assert(history[i] == rest[i - earlier.len() - 1]);
                    assert(rest[i - earlier.len() - 1] == after.queue.subrange(
                        0,
                        rest.len() as int,
                    )[i - earlier.len() - 1]);
                }
            }
            assert(history =~= longer.subrange(0, history.len() as int));
        } else {
            assert(history =~= longer.subrange(0, history.len() as int));
        }
        assert(m.queue =~= longer.subrange(0, m.queue.len() as int));
    }
}

/// A drain that ends below the limit ends with an empty queue: every
/// command that waited or was enqueued meanwhile has been handled.
pub proof fn lemma_drain_ends_empty<W: WidgetTree, D: AppDelegate<W::Data, W::Env>>(
    m: AppModel<W, D>,
    me: WindowId,
    replies: Seq<ShellReply>,
    after: AppModel<W, D>,
)
    requires
        m.drains_to(me, replies, after),
        replies.len() < DRAIN_LIMIT,
    ensures
        after.queue.len() == 0,
        m.queue.is_prefix_of(m.handled(me, replies)),
{
    lemma_drain_is_fifo(m, me, replies);
    assert(m.handled(me, replies) + after.queue =~= m.handled(me, replies));
}

/// A command that asks the platform nothing is handled in one way only:
/// what the platform would have answered makes no difference.
pub proof fn lemma_quiet_command_ignores_reply<W: WidgetTree, D: AppDelegate<W::Data, W::Env>>(
    m: AppModel<W, D>,
    me: WindowId,
    target: Target,
    command: Command,
    reply: ShellReply,
    other: ShellReply,
)
    requires
        !AppModel::<W, D>::asks_platform(target, command),
    ensures
        m.handle_cmd(me, target, command, reply) == m.handle_cmd(me, target, command, other),
{
}

/// A drain leaves the inbox and the environment as they were, and what was
/// left for the platform in its place.
pub proof fn lemma_run_keeps_inbox<W: WidgetTree, D: AppDelegate<W::Data, W::Env>>(
    m: AppModel<W, D>,
    me: WindowId,
    replies: Seq<ShellReply>,
)
    ensures
        m.run(me, replies).host.inbox == m.host.inbox,
        m.run(me, replies).env == m.env,
        m.effects.is_prefix_of(m.run(me, replies).effects),
    decreases replies.len(),
{
    if replies.len() > 0 {
        let before = m.run(me, replies.drop_last());
        lemma_run_keeps_inbox(m, me, replies.drop_last());
        if before.queue.len() > 0 {
            let popped = AppModel { queue: before.queue.drop_first(), ..before };
            lemma_handle_cmd_follows(
                popped,
                me,
                before.queue[0].0,
                before.queue[0].1,
                replies.last(),
            );
            let after = m.run(me, replies);
            assert(m.effects =~= after.effects.subrange(0, m.effects.len() as int));
        }
    }
}

/// The update of the windows and the pass in which they settle leave what
/// waits in its place, and the data as it was.
pub proof fn lemma_do_update_follows<W: WidgetTree, D: AppDelegate<W::Data, W::Env>>(
    m: AppModel<W, D>,
)
    ensures
        m.do_update().follows(m),
        m.do_update().host == m.host,
        m.do_update().data == m.data,
        m.do_update().windows.pending == m.windows.pending,
        m.do_update().windows.live.len() == m.windows.live.len(),
{
    lemma_update_pass_follows(m, 0);
    lemma_invalidate_pass_follows(m.update_pass(0), 0);
    lemma_follows_trans(m, m.update_pass(0), m.do_update());
}

/// The update pass reaches every live window, whichever window the event was
/// for: each window from the place `from` on has the tree that its update
/// makes of the tree it had, and every window keeps its id and its handle.
pub proof fn lemma_update_pass_reaches_all<W: WidgetTree, D: AppDelegate<W::Data, W::Env>>(
    m: AppModel<W, D>,
    from: int,
)
    requires
        0 <= from,
    ensures
        m.update_pass(from).windows.live.len() == m.windows.live.len(),
        forall|i: int|
            from <= i < m.windows.live.len() ==> #[trigger] m.update_pass(from).windows.live[i] == (
                m.windows.live[i].0,
                m.windows.live[i].1.with_root(m.windows.live[i].1.root.updated(m.data, m.env)),
            ),
        forall|i: int|
            0 <= i < from && i < m.windows.live.len() ==> #[trigger] m.update_pass(
                from,
            ).windows.live[i] == m.windows.live[i],
    decreases m.windows.live.len() - from,
{
    if from < m.windows.live.len() {
        let next = m.with_root_at(from, m.windows.live[from].1.root.updated(m.data, m.env));
        lemma_update_pass_reaches_all(next, from + 1);
        let after = m.update_pass(from);
        assert forall|i: int| from <= i < m.windows.live.len() implies #[trigger] after.windows.live[i]
            == (
            m.windows.live[i].0,
            m.windows.live[i].1.with_root(m.windows.live[i].1.root.updated(m.data, m.env)),
        ) by {
            if i > from {
                assert(next.windows.live[i] == m.windows.live[i]);
            } else {
                assert(after.windows.live[from] == next.windows.live[from]);
            }
        }
        assert forall|i: int| 0 <= i < from && i < m.windows.live.len() implies #[trigger] after.windows.live[i]
            == m.windows.live[i] by {
            assert(next.windows.live[i] == m.windows.live[i]);
        }
    }
}

/// The settling pass reaches every live window: each window from the place
/// `from` on has the tree that settling makes of the tree it had, and every
/// window keeps its id and its handle.
pub proof fn lemma_invalidate_pass_reaches_all<W: WidgetTree, D: AppDelegate<W::Data, W::Env>>(
    m: AppModel<W, D>,
    from: int,
)
    requires
        0 <= from,
    ensures
        m.invalidate_pass(from).windows.live.len() == m.windows.live.len(),
        forall|i: int|
            from <= i < m.windows.live.len() ==> #[trigger] m.invalidate_pass(
                from,
            ).windows.live[i] == (
                m.windows.live[i].0,
                m.windows.live[i].1.with_root(
                    m.windows.live[i].1.root.invalidate_outcome(m.data, m.env).tree,
                ),
            ),
        forall|i: int|
            0 <= i < from && i < m.windows.live.len() ==> #[trigger] m.invalidate_pass(
                from,
            ).windows.live[i] == m.windows.live[i],
    decreases m.windows.live.len() - from,
{
    if from < m.windows.live.len() {
        let o = m.windows.live[from].1.root.invalidate_outcome(m.data, m.env);
        let settled = m.with_root_at(from, o.tree).enqueue(o.commands);
        let asked = if o.redraw {
            settled.emit(Effect::Invalidate(m.windows.live[from].1.handle))
        } else {
            settled
        };
        lemma_invalidate_pass_reaches_all(asked, from + 1);
        let after = m.invalidate_pass(from);
        assert forall|i: int| from <= i < m.windows.live.len() implies #[trigger] after.windows.live[i]
            == (
            m.windows.live[i].0,
            m.windows.live[i].1.with_root(
                m.windows.live[i].1.root.invalidate_outcome(m.data, m.env).tree,
            ),
        ) by {
            if i > from {
                assert(asked.windows.live[i] == m.windows.live[i]);
            } else {
                assert(after.windows.live[from] == asked.windows.live[from]);
            }
        }
        assert forall|i: int| 0 <= i < from && i < m.windows.live.len() implies #[trigger] after.windows.live[i]
            == m.windows.live[i] by {
            assert(asked.windows.live[i] == m.windows.live[i]);
        }
    }
}

/// An event for one window leaves the registry with the ids that it had.
pub proof fn lemma_deliver_keeps_wf<W: WidgetTree, D: AppDelegate<W::Data, W::Env>>(
    m: AppModel<W, D>,
    id: WindowId,
    event: Event,
)
    requires
        m.wf(),
    ensures
        m.deliver(id, event).0.wf(),
        forall|other: WindowId|
            m.deliver(id, event).0.windows.is_live(other) == m.windows.is_live(other),
        forall|other: WindowId|
            m.deliver(id, event).0.windows.is_pending(other) == m.windows.is_pending(other),
{
    if m.windows.is_live(id) {
        lemma_with_any_window_keeps_ids(m.windows, id);
    }
}

/// A broadcast leaves the registry with the ids that it had.
pub proof fn lemma_broadcast_keeps_wf<W: WidgetTree, D: AppDelegate<W::Data, W::Env>>(
    m: AppModel<W, D>,
    event: Event,
    from: int,
)
    requires
        m.wf(),
    ensures
        m.broadcast(event, from).0.wf(),
        forall|other: WindowId|
            m.broadcast(event, from).0.windows.is_live(other) == m.windows.is_live(other),
        forall|other: WindowId|
            m.broadcast(event, from).0.windows.is_pending(other) == m.windows.is_pending(other),
    decreases m.windows.live.len() - from,
{
    if 0 <= from < m.windows.live.len() {
        let o = m.windows.live[from].1.root.event_outcome(event, m.data, m.env);
        let next = AppModel { data: o.data, ..m.with_root_at(from, o.tree) }.enqueue(o.commands);
        lemma_update_keeps_ids(m.windows, from, m.windows.live[from].1.with_root(o.tree));
        if !o.handled {
            lemma_broadcast_keeps_wf(next, event, from + 1);
        }
    }
}

/// The dispatch of an event adds no window and takes none away: every id is
/// live exactly if it was, waits exactly if it did, and no id is in use
/// twice.
pub proof fn lemma_do_event_keeps_wf<W: WidgetTree, D: AppDelegate<W::Data, W::Env>>(
    m: AppModel<W, D>,
    source: WindowId,
    event: Event,
)
    requires
        m.wf(),
    ensures
        m.do_event(source, event).0.wf(),
        forall|other: WindowId|
            m.do_event(source, event).0.windows.is_live(other) == m.windows.is_live(other),
        forall|other: WindowId|
            m.do_event(source, event).0.windows.is_pending(other) == m.windows.is_pending(other),
{
    let (next, passed) = m.delegate_event(source, event);
    lemma_with_delegate_follows(m, source, DelegateCall::Event(event));
    match passed {
        Some(event) => {
            lemma_deliver_keeps_wf(next, source, event);
            lemma_broadcast_keeps_wf(next, event, 0);
            if next.windows.is_live(source) {
                lemma_with_any_window_keeps_ids(next.windows, source);
            }
        },
        None => {},
    }
}

/// The update of the windows and the pass in which they settle add no
/// window and take none away.
pub proof fn lemma_passes_keep_wf<W: WidgetTree, D: AppDelegate<W::Data, W::Env>>(
    m: AppModel<W, D>,
    from: int,
)
    requires
        m.wf(),
    ensures
        m.update_pass(from).wf(),
        m.invalidate_pass(from).wf(),
    decreases m.windows.live.len() - from,
{
    if 0 <= from < m.windows.live.len() {
        let updated = m.with_root_at(from, m.windows.live[from].1.root.updated(m.data, m.env));
        lemma_update_keeps_ids(
            m.windows,
            from,
            m.windows.live[from].1.with_root(m.windows.live[from].1.root.updated(m.data, m.env)),
        );
        lemma_passes_keep_wf(updated, from + 1);
        let o = m.windows.live[from].1.root.invalidate_outcome(m.data, m.env);
        let settled = m.with_root_at(from, o.tree).enqueue(o.commands);
        let asked = if o.redraw {
            settled.emit(Effect::Invalidate(m.windows.live[from].1.handle))
        } else {
            settled
        };
        lemma_update_keeps_ids(m.windows, from, m.windows.live[from].1.with_root(o.tree));
        lemma_passes_keep_wf(asked, from + 1);
    }
}

/// Making a window the one to wake keeps the state in order: the window
/// that is woken is a live one.
pub proof fn lemma_set_idle_handler_keeps_wf<W: WidgetTree, D: AppDelegate<W::Data, W::Env>>(
    m: AppModel<W, D>,
    id: WindowId,
)
    requires
        m.wf(),
    ensures
        m.set_ext_event_idle_handler(id).wf(),
{
}

/// The connection of a window keeps the state in order: the window that
/// waited is live and waits no longer, no id is in use twice, and the window
/// that is woken is a live one.
pub proof fn lemma_connect_keeps_wf<W: WidgetTree, D: AppDelegate<W::Data, W::Env>>(
    m: AppModel<W, D>,
    id: WindowId,
    handle: WindowHandle,
)
    requires
        m.wf(),
    ensures
        m.connect(id, handle).wf(),
        m.connect(id, handle).windows == m.windows.connect(id, handle),
        m.windows.is_pending(id) ==> m.connect(id, handle).windows.is_live(id) && !m.connect(
            id,
            handle,
        ).windows.is_pending(id),
{
    lemma_connect(m.windows, id, handle);
    let moved = AppModel { windows: m.windows.connect(id, handle), ..m };
    let noted = if m.windows.is_pending(id) {
        moved
    } else {
        moved.log(Level::Error, Notice::NoPendingWindow(id))
    };
    let woken = if noted.host.waker is None {
        noted.set_ext_event_idle_handler(id)
    } else {
        noted
    };
    lemma_set_idle_handler_keeps_wf(noted, id);
    lemma_with_delegate_follows(woken, id, DelegateCall::WindowAdded(id));
}

/// The removal of a window keeps the state in order: the window is live no
/// longer, no id is in use twice, and the window that is woken, if one
/// still is, is a live one.
pub proof fn lemma_remove_window_keeps_wf<W: WidgetTree, D: AppDelegate<W::Data, W::Env>>(
    m: AppModel<W, D>,
    id: WindowId,
)
    requires
        m.wf(),
    ensures
        m.remove_window(id).wf(),
        !m.remove_window(id).windows.is_live(id),
{
    let told = m.with_delegate(id, DelegateCall::WindowRemoved(id)).0;
    lemma_with_delegate_follows(m, id, DelegateCall::WindowRemoved(id));
    lemma_remove(told.windows, id);
    let gone = AppModel { windows: told.windows.remove(id), ..told };
    if gone.host.waker_id() == Some(id) {
        let cleared = AppModel { host: gone.host.clear_idle(), ..gone };
        let at = cleared.windows.first_wakeable();
        if at < cleared.windows.live.len() {
            lemma_set_idle_handler_keeps_wf(cleared, cleared.windows.live[at].0);
        }
    }
}

/// The creation of a window keeps the state in order, whatever the platform
/// makes of it.
pub proof fn lemma_new_window_keeps_wf<W: WidgetTree, D: AppDelegate<W::Data, W::Env>>(
    m: AppModel<W, D>,
    command: Command,
    made: Result<WindowHandle, PlatformError>,
)
    requires
        m.wf(),
    ensures
        m.new_window(command, made).wf(),
{
    match command.window_desc() {
        Some(desc) => {
            if m.can_create(command) {
                let window = PendingWindow { root: W::built(desc) };
                lemma_add(m.windows, desc.id, window);
                let waiting = m.add_window(desc.id, window);
                match made {
                    Ok(handle) => {
                        lemma_connect_keeps_wf(waiting, desc.id, handle);
                    },
                    Err(_) => {},
                }
            }
        },
        None => {},
    }
}

/// No id is ever in use twice. Whatever command is handled, and whatever
/// the platform answers, a state that was in order is in order afterwards:
/// no window waits and is live at once, none waits twice or is live twice,
/// and the window that is woken for external events is a live one.
pub proof fn lemma_handle_cmd_keeps_wf<W: WidgetTree, D: AppDelegate<W::Data, W::Env>>(
    m: AppModel<W, D>,
    me: WindowId,
    target: Target,
    command: Command,
    reply: ShellReply,
)
    requires
        m.wf(),
    ensures
        m.handle_cmd(me, target, command, reply).wf(),
{
    match target {
        Target::Window(id) => {
            match reply.file {
                Some(info) => {
                    lemma_do_event_keeps_wf(
                        m,
                        id,
                        Event::TargetedCommand(
                            Target::Window(id),
                            Command { selector: Selector::OpenFile, payload: Payload::FileInfo(info) },
                        ),
                    );
                    lemma_do_event_keeps_wf(
                        m,
                        id,
                        Event::TargetedCommand(
                            Target::Window(id),
                            Command { selector: Selector::SaveFile, payload: Payload::FileInfo(info) },
                        ),
                    );
                },
                None => {},
            }
            lemma_new_window_keeps_wf(m, command, reply.window);
            lemma_do_event_keeps_wf(m, id, Event::Paste(reply.clipboard));
            lemma_do_event_keeps_wf(m, id, Event::TargetedCommand(target, command));
        },
        Target::Widget(_) => {
            lemma_do_event_keeps_wf(m, me, Event::TargetedCommand(target, command));
        },
    }
}

/// A drain of the command queue keeps the state in order.
pub proof fn lemma_run_keeps_wf<W: WidgetTree, D: AppDelegate<W::Data, W::Env>>(
    m: AppModel<W, D>,
    me: WindowId,
    replies: Seq<ShellReply>,
)
    requires
        m.wf(),
    ensures
        m.run(me, replies).wf(),
    decreases replies.len(),
{
    if replies.len() > 0 {
        let before = m.run(me, replies.drop_last());
        lemma_run_keeps_wf(m, me, replies.drop_last());
        if before.queue.len() > 0 {
            lemma_handle_cmd_keeps_wf(
                AppModel { queue: before.queue.drop_first(), ..before },
                me,
                before.queue[0].0,
                before.queue[0].1,
                replies.last(),
            );
        }
    }
}

/// A whole cycle keeps the state in order: after an event was dispatched,
/// the queue drained and the windows updated and settled, no id is in use
/// twice.
pub proof fn lemma_event_cycle_keeps_wf<W: WidgetTree, D: AppDelegate<W::Data, W::Env>>(
    m: AppModel<W, D>,
    me: WindowId,
    event: Event,
    replies: Seq<ShellReply>,
    after: AppModel<W, D>,
)
    requires
        m.wf(),
        m.event_cycle(me, event, replies, after),
    ensures
        after.wf(),
        forall|id: WindowId| !(after.windows.is_pending(id) && after.windows.is_live(id)),
{
    lemma_do_event_keeps_wf(m, me, event);
    let dispatched = m.do_event(me, event).0;
    lemma_run_keeps_wf(dispatched, me, replies);
    let drained = dispatched.run(me, replies);
    lemma_passes_keep_wf(drained, 0);
    lemma_passes_keep_wf(drained.update_pass(0), 0);
}

/// A window that is created in the middle of a cycle takes part in the rest
/// of it.
///
/// Say the handling of an event leaves one command in the queue, a command
/// to create a window under an id that is not in use, and the platform
/// makes the window. Then the window is not there while the event is
/// handled. The drain that follows makes it the last of the live windows,
/// with the tree that its description asks for and the handle that the
/// platform gave, and asks once for it to be shown. After that every live
/// window, the new one included, is updated and then settles.
pub proof fn lemma_new_window_during_event<W: WidgetTree, D: AppDelegate<W::Data, W::Env>>(
    m: AppModel<W, D>,
    me: WindowId,
    event: Event,
    sent_to: WindowId,
    command: Command,
    desc: WindowDesc,
    handle: WindowHandle,
    reply: ShellReply,
    after: AppModel<W, D>,
)
    requires
        m.wf(),
        m.do_event(me, event).0.queue == seq![(Target::Window(sent_to), command)],
        command.selector == Selector::NewWindow,
        command.window_desc() == Some(desc),
        !m.windows.is_pending(desc.id),
        !m.windows.is_live(desc.id),
        reply.window == Ok::<WindowHandle, PlatformError>(handle),
        m.event_cycle(me, event, seq![reply], after),
    ensures
        ({
            let dispatched = m.do_event(me, event).0;
            let created = dispatched.run(me, seq![reply]);
            let made = Window { handle, root: W::built(desc) };
            &&& !dispatched.windows.is_live(desc.id)
            &&& dispatched.windows.live.len() == m.windows.live.len()
            &&& created.windows.live == dispatched.windows.live.push((desc.id, made))
            &&& created.windows.pending == dispatched.windows.pending
            &&& created.effects.len() > dispatched.effects.len()
            &&& created.effects.last() == Effect::Show(handle)
            &&& forall|k: int|
                dispatched.effects.len() <= k < created.effects.len() - 1 ==> !(
                #[trigger] created.effects[k] is Show)
            &&& after.windows.live.len() == m.windows.live.len() + 1
            &&& forall|i: int|
                0 <= i < after.windows.live.len() ==> {
                    let before = created.windows.live[i];
                    let updated = before.1.root.updated(created.data, created.env);
                    #[trigger] after.windows.live[i] == (
                        before.0,
                        before.1.with_root(
                            updated.invalidate_outcome(created.data, created.env).tree,
                        ),
                    )
                }
        }),
{
    let dispatched = m.do_event(me, event).0;
    lemma_do_event_keeps_wf(m, me, event);
    lemma_do_event_follows(m, me, event);
    let replies = seq![reply];
    assert(replies.drop_last() =~= Seq::<ShellReply>::empty());
    assert(dispatched.run(me, replies.drop_last()) == dispatched);
    let created = dispatched.run(me, replies);
    assert(created == dispatched.step(me, reply));
    let popped = AppModel { queue: dispatched.queue.drop_first(), ..dispatched };
    assert(created == popped.new_window(command, reply.window));
    assert(popped.can_create(command));
    let waiting = popped.add_window(desc.id, PendingWindow { root: W::built(desc) });
    lemma_add(popped.windows, desc.id, PendingWindow { root: W::built(desc) });
    let fresh = popped.windows.pending.len() as int;
    assert(waiting.windows.pending[fresh].0 == desc.id);
    lemma_position(waiting.windows.pending, desc.id);
    assert(position(waiting.windows.pending, desc.id) == fresh) by {
        assert forall|i: int| 0 <= i < fresh implies waiting.windows.pending[i].0 != desc.id by {
            assert(waiting.windows.pending[i] == popped.windows.pending[i]);
        }
    }
    assert(waiting.windows.pending.remove(fresh) =~= popped.windows.pending);
    let connected = waiting.connect(desc.id, handle);
    lemma_connect_keeps_wf(waiting, desc.id, handle);
    let moved = AppModel { windows: waiting.windows.connect(desc.id, handle), ..waiting };
    let woken = if moved.host.waker is None {
        moved.set_ext_event_idle_handler(desc.id)
    } else {
        moved
    };
    lemma_with_delegate_follows(woken, desc.id, DelegateCall::WindowAdded(desc.id));
    assert(created == connected.emit(Effect::Show(handle)));
    assert forall|k: int|
        dispatched.effects.len() <= k < created.effects.len() - 1 implies !(
    #[trigger] created.effects[k] is Show) by {
        assert(created.effects[k] == woken.effects[k]);
    }
    lemma_update_pass_reaches_all(created, 0);
    lemma_update_pass_follows(created, 0);
    lemma_invalidate_pass_reaches_all(created.update_pass(0), 0);
}

} // verus!
