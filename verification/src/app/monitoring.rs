//! The live monitor: its control surface and the decisions of its polling
//! task. The library decides; whoever runs the task performs the fetches,
//! the sends and the sleeps, and reports what came of them.

use super::telegram_manager::{lines_of, MonitorLine, TelegramManager};
use crate::telegram::registry::{later, registry_wf, update_views};
use crate::telegram::types::{GetUpdatesResponse, Update, UpdateView};
use vstd::prelude::*;

verus! {

/// How many batches the delivery channel holds.
pub const DELIVERY_CAPACITY: usize = 100;

/// How many commands the control channel holds.
pub const CONTROL_CAPACITY: usize = 10;

/// The long-poll timeout of one fetch, in seconds.
pub const POLL_TIMEOUT_SECS: i64 = 1;

/// The pause between two fetches, in seconds.
pub const IDLE_SLEEP_SECS: u64 = 2;

/// A message as the monitor screen shows it.
#[derive(Debug, Clone)]
pub struct MonitorMessage {
    pub timestamp: i64,
    pub chat_name: String,
    pub sender: Option<String>,
    pub text: String,
}

/// A command to the polling task.
#[derive(Debug, Clone, Copy, PartialEq, Eq, Structural)]
pub enum MonitoringCommand {
    /// End the task.
    Stop,
}

/// The states of the monitor.
#[derive(Debug, Clone, Copy, PartialEq, Eq, Structural)]
pub enum MonitorState {
    Stopped,
    Running,
    RunningPaused,
}

/// The watermark `offset` after the updates `updates`: the highest of it
/// and their ids.
pub open spec fn offset_after(offset: int, updates: Seq<UpdateView>) -> int
    decreases updates.len(),
{
    if updates.len() == 0 {
        offset
    } else {
        later(updates.last().update_id, offset_after(offset, updates.drop_last()))
    }
}

/// The offset never falls, and afterwards no update's id lies above it.
pub proof fn lemma_offset_after(offset: int, updates: Seq<UpdateView>)
    ensures
        offset_after(offset, updates) >= offset,
        forall|i: int|
            0 <= i < updates.len() ==> (#[trigger] updates[i]).update_id <= offset_after(
                offset,
                updates,
            ),
        offset_after(offset, updates) == offset || exists|i: int|
            0 <= i < updates.len() && (#[trigger] updates[i]).update_id == offset_after(
                offset,
                updates,
            ),
    decreases updates.len(),
{
    if updates.len() > 0 {
        let front = updates.drop_last();
        lemma_offset_after(offset, front);
        let mid = offset_after(offset, front);
        let end = offset_after(offset, updates);
        assert forall|i: int| 0 <= i < updates.len() implies (#[trigger] updates[i]).update_id
            <= end by {
            if i < front.len() {
                assert(front[i] == updates[i]);
            }
        }
        if end != offset {
            if end == updates.last().update_id {
                assert(updates[updates.len() - 1].update_id == end);
            } else {
                let i = choose|i: int| 0 <= i < front.len() && (#[trigger] front[i]).update_id == mid;
                assert(updates[i].update_id == end);
            }
        }
    }
}

/// The polling task and the processor keep the same watermark: a task that
/// started behind a processor's watermark and has fetched the updates that
/// the processor was given stands at the processor's watermark.
pub proof fn law_offset_follows_watermark(
    state: crate::telegram::registry::ProcessorView,
    updates: Seq<UpdateView>,
)
    ensures
        offset_after(state.watermark, updates) == state.after_updates(updates).watermark,
    decreases updates.len(),
{
    if updates.len() > 0 {
        law_offset_follows_watermark(state, updates.drop_last());
    }
}

/// What the polling task does next.
#[derive(Debug)]
pub enum PollStep {
    /// Leave the loop.
    Exit,
    /// Ask for the updates from `offset` on, waiting `timeout_secs` seconds
    /// at most.
    Fetch { offset: i64, timeout_secs: i64 },
    /// Put the batch on the delivery channel.
    Deliver(Vec<Update>),
    /// Sleep `secs` seconds, then look at the control channel again.
    Sleep { secs: u64 },
}

/// The polling task of the monitor. It holds the highest update id it has
/// fetched; none of its decisions lowers it.
#[derive(Debug)]
pub struct PollTask {
    offset: i64,
}

impl View for PollTask {
    type V = int;

    /// The highest update id fetched so far.
    closed spec fn view(&self) -> int {
        self.offset as int
    }
}

impl PollTask {
    /// A task that goes on behind the update `last_update_id`.
    pub fn new(last_update_id: i64) -> (task: Self)
        ensures
            task@ == last_update_id,
    {
        PollTask { offset: last_update_id }
    }

    /// The highest update id fetched so far.
    pub fn offset(&self) -> (offset: i64)
        ensures
            offset == self@,
    {
        self.offset
    }

    /// Whether the id behind the offset can still be asked for.
    pub fn can_fetch(&self) -> (able: bool)
        ensures
            able == (self@ < i64::MAX),
    {
        self.offset < i64::MAX
    }

    /// The start of a round, after a look at the control channel that did
    /// not wait: a command to stop ends the task; else the task asks for
    /// the updates behind its offset, which must not be the last id there
    /// is.
    pub fn on_control(&self, command: Option<MonitoringCommand>) -> (step: PollStep)
        requires
            command is None ==> self@ < i64::MAX,
        ensures
            command is Some ==> step is Exit,
            command is None ==> step == (PollStep::Fetch {
                offset: (self@ + 1) as i64,
                timeout_secs: POLL_TIMEOUT_SECS,
            }),
    {
        match command {
            Some(MonitoringCommand::Stop) => PollStep::Exit,
            None => PollStep::Fetch { offset: self.offset + 1, timeout_secs: POLL_TIMEOUT_SECS },
        }
    }

    /// After a fetch. An answer that is `ok` and holds updates raises the
    /// offset to the highest id among them and is handed on whole; a
    /// failed fetch (`None`), an answer that is not `ok` and an empty one
    /// change nothing and lead to the sleep, after which the task tries
    /// again, however often the fetch has failed.
    pub fn on_fetched(&mut self, response: Option<GetUpdatesResponse>) -> (step: PollStep)
        ensures
            match response {
                Some(answer) => if answer.ok && answer.result@.len() > 0 {
                    &&& step == PollStep::Deliver(answer.result)
                    &&& final(self)@ == offset_after(old(self)@, update_views(answer.result@))
                } else {
                    &&& step == (PollStep::Sleep { secs: IDLE_SLEEP_SECS })
                    &&& final(self)@ == old(self)@
                },
                None => {
                    &&& step == (PollStep::Sleep { secs: IDLE_SLEEP_SECS })
                    &&& final(self)@ == old(self)@
                },
            },
            final(self)@ >= old(self)@,
    {
        match response {
            Some(answer) => {
                if answer.ok && answer.result.len() > 0 {
                    let ghost views = update_views(answer.result@);
                    let mut i: usize = 0;
                    assert(views.take(0) =~= Seq::empty());
                    while i < answer.result.len()
                        invariant
                            i <= answer.result.len(),
                            views == update_views(answer.result@),
                            self@ == offset_after(old(self)@, views.take(i as int)),
                        decreases answer.result.len() - i,
                    {
                        proof {
                            assert(views.take(i + 1).drop_last() =~= views.take(i as int));
                            assert(views.take(i + 1).last() == answer.result[i as int]@);
                        }
                        if answer.result[i].update_id > self.offset {
                            self.offset = answer.result[i].update_id;
                        }
                        i += 1;
                    }
                    proof {
                        assert(views.take(answer.result.len() as int) =~= views);
                        lemma_offset_after(old(self)@, views);
                    }
                    PollStep::Deliver(answer.result)
                } else {
                    PollStep::Sleep { secs: IDLE_SLEEP_SECS }
                }
            },
            None => PollStep::Sleep { secs: IDLE_SLEEP_SECS },
        }
    }

    /// After the batch was put on the delivery channel: the task goes on to
    /// its sleep, or ends if the channel's receiving end is gone.
    pub fn on_delivered(&self, accepted: bool) -> (step: PollStep)
        ensures
            accepted ==> step == (PollStep::Sleep { secs: IDLE_SLEEP_SECS }),
            !accepted ==> step is Exit,
    {
        if accepted {
            PollStep::Sleep { secs: IDLE_SLEEP_SECS }
        } else {
            PollStep::Exit
        }
    }
}

/// What [`MonitoringService::toggle`] asks for.
#[derive(Debug)]
pub enum ToggleAction {
    /// Run the polling task handed out, in the background.
    Spawn(PollTask),
    /// Send the running task the command to stop and wait for its end.
    StopTask,
}

/// The control surface of the live monitor. While it is active exactly one
/// polling task runs.
#[derive(Debug)]
pub struct MonitoringService {
    /// Whether the polling task runs. Starting, stopping and toggling the
    /// monitor set it; nothing else should.
    pub active: bool,
    /// Whether delivered batches are kept from the monitor screen. The
    /// polling task goes on and the batches are still processed.
    pub paused: bool,
    /// The messages that the monitor screen shows.
    pub messages: Vec<MonitorMessage>,
}

impl MonitoringService {
    /// Whether the polling task runs.
    pub open spec fn active(&self) -> bool {
        self.active
    }

    /// Whether delivered batches are kept from the monitor screen.
    pub open spec fn is_paused(&self) -> bool {
        self.paused
    }

    /// The messages that the monitor screen shows.
    pub open spec fn shown(&self) -> Seq<MonitorMessage> {
        self.messages@
    }

    /// What the monitor screen shows, but for the times.
    pub open spec fn lines(&self) -> Seq<MonitorLine> {
        lines_of(self.messages@)
    }

    /// The state of the monitor.
    pub open spec fn state(&self) -> MonitorState {
        if !self.active() {
            MonitorState::Stopped
        } else if self.is_paused() {
            MonitorState::RunningPaused
        } else {
            MonitorState::Running
        }
    }

    /// A monitor that is stopped, not paused, and shows nothing.
    pub fn new() -> (service: Self)
        ensures
            !service.active(),
            !service.is_paused(),
            service.shown().len() == 0,
    {
        MonitoringService { active: false, paused: false, messages: Vec::new() }
    }

    /// Whether the polling task runs.
    pub fn is_active(&self) -> (active: bool)
        ensures
            active == self.active(),
    {
        self.active
    }

    /// Pauses the monitor screen, or ends the pause. The polling task is
    /// not touched.
    pub fn toggle_pause(&mut self)
        ensures
            final(self).is_paused() == !old(self).is_paused(),
            final(self).active() == old(self).active(),
            final(self).shown() == old(self).shown(),
    {
        self.paused = !self.paused;
    }

    /// Takes all messages off the monitor screen.
    pub fn clear_messages(&mut self)
        ensures
            final(self).shown().len() == 0,
            final(self).lines().len() == 0,
            final(self).active() == old(self).active(),
            final(self).is_paused() == old(self).is_paused(),
    {
        self.messages.clear();
    }

    /// Feeds one delivered batch to `telegram`. The processor gets every
    /// batch. A paused monitor keeps the batch from the screens: neither
    /// the kept updates nor the monitor's messages change.
    pub fn feed(&mut self, telegram: &mut TelegramManager, updates: Vec<Update>)
        requires
            old(telegram).update_processor@.has_room(updates@.len()),
        ensures
            final(telegram).update_processor@ == old(telegram).update_processor@.after_updates(
                update_views(updates@),
            ),
            registry_wf(final(telegram).update_processor@.registry),
            final(telegram).feed(final(self).lines()) == if old(self).is_paused() {
                old(telegram).feed(old(self).lines())
            } else {
                old(telegram).feed(old(self).lines()).after_updates(update_views(updates@))
            },
            old(self).is_paused() ==> final(self).shown() == old(self).shown() && final(telegram).raw_updates == old(telegram).raw_updates && final(telegram).last_processed_update_id
                == old(telegram).last_processed_update_id,
            final(telegram).client_token == old(telegram).client_token,
            final(telegram).raw_json_updates == old(telegram).raw_json_updates,
            final(self).active() == old(self).active(),
            final(self).is_paused() == old(self).is_paused(),
    {
        if self.paused {
            telegram.update_processor.process_updates(updates);
        } else {
            telegram.process_updates_batch(updates, &mut self.messages);
        }
    }

    /// Starts the monitor behind the update `last_update_id`. A stopped
    /// monitor becomes active and hands out the one task to run; an active
    /// one stays as it is and hands out nothing.
    pub fn start(&mut self, last_update_id: i64) -> (task: Option<PollTask>)
        ensures
            final(self).active(),
            final(self).state() != MonitorState::Stopped,
            final(self).is_paused() == old(self).is_paused(),
            final(self).shown() == old(self).shown(),
            old(self).active() ==> task is None,
            !old(self).active() ==> (task matches Some(t) && t@ == last_update_id),
    {
        if self.active {
            return None;
        }
        self.active = true;
        Some(PollTask::new(last_update_id))
    }

    /// Stops the monitor. The result tells whether there is a task to send
    /// the command to stop and to wait for: there is one exactly if the
    /// monitor was active. A stopped monitor stays stopped.
    pub fn stop(&mut self) -> (had_task: bool)
        ensures
            !final(self).active(),
            final(self).state() == MonitorState::Stopped,
            had_task == old(self).active(),
            final(self).is_paused() == old(self).is_paused(),
            final(self).shown() == old(self).shown(),
    {
        let had_task = self.active;
        self.active = false;
        had_task
    }

    /// Stops an active monitor and starts a stopped one.
    pub fn toggle(&mut self, last_update_id: i64) -> (action: ToggleAction)
        ensures
            final(self).active() == !old(self).active(),
            final(self).is_paused() == old(self).is_paused(),
            final(self).shown() == old(self).shown(),
            old(self).active() ==> action is StopTask,
            !old(self).active() ==> (action matches ToggleAction::Spawn(t) && t@
                == last_update_id),
    {
        if self.active {
            self.active = false;
            ToggleAction::StopTask
        } else {
            self.active = true;
            ToggleAction::Spawn(PollTask::new(last_update_id))
        }
    }

    /// Hands on the batches `queued` that were taken off the delivery
    /// channel without waiting: all of them, in their order; nothing if
    /// there was none or the monitor is stopped. Paused or not makes no
    /// difference here.
    pub fn receive_updates(&self, queued: Vec<Vec<Update>>) -> (batches: Option<Vec<Vec<Update>>>)
        ensures
            batches == if self.active() && queued@.len() > 0 {
                Some(queued)
            } else {
                None
            },
    {
        if self.active && queued.len() > 0 {
            Some(queued)
        } else {
            None
        }
    }
}

impl Default for MonitoringService {
    fn default() -> (service: Self)
        ensures
            !service.active(),
            !service.is_paused(),
            service.shown().len() == 0,
    {
        MonitoringService::new()
    }
}

} // verus!
