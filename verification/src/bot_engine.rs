//! The engine the consumer drives: scanning, focus dispatch, and the log
//! channel that every part reports into.
//!
//! All work that needs the operating system — the inventory query, the
//! capture stream, raising a process, sleeping — happens outside; the
//! engine takes the inventory in, hands command and step plans out, and
//! records every outcome as a timestamped log message that the consumer
//! drains on its own cadence.

use vstd::prelude::*;
use vstd::utf8::encode_utf8;
use crate::input_manager::FocusStep;
use crate::input_manager::InputManager;
use crate::locator::ScanError;
use crate::locator::WindowDescriptor;
use crate::locator::first_match;
use crate::log_channel::LogChannel;
use crate::log_channel::LogLevel;
use crate::log_channel::LogMessage;
use crate::session::CaptureCommand;
use crate::session::SessionState;
use crate::session::start_commands;
use crate::vision_engine::VisionEngine;
use crate::vision_engine::resolution_label;

verus! {

/// Relies on chrono's `Local::now` and its `%H:%M:%S` format: hours,
/// minutes and seconds each zero-padded to two digits with `:` between —
/// eight characters. Which time comes back depends on the clock, so
/// nothing more is promised.
#[verifier::external_body]
fn now_timestamp() -> (r: String)
    ensures
        r@.len() == 8,
        r@[2] == ':' && r@[5] == ':',
{
    chrono::Local::now().format("%H:%M:%S").to_string()
}

/// `post` is `pre` with one message of this level and text appended,
/// carrying some eight-character wall-clock timestamp.
pub open spec fn logged(
    pre: Seq<LogMessage>,
    post: Seq<LogMessage>,
    level: LogLevel,
    text: Seq<char>,
) -> bool {
    exists|m: LogMessage|
        {
            &&& post == pre.push(m)
            &&& m.level == level
            &&& m.message@ == text
            &&& m.timestamp@.len() == 8
        }
}

/// The step is an announcement with this level and text.
pub open spec fn announce_is(step: FocusStep, level: LogLevel, text: Seq<char>) -> bool {
    step matches FocusStep::Announce { level: l, message: m } && l == level && m@ == text
}

/// Ties the vision engine, the input dispatcher and the log channel
/// together for the consumer.
pub struct BotEngine {
    /// Window targeting and the capture pipeline.
    pub vision: VisionEngine,
    /// Synthetic-input and focus planning.
    pub input: InputManager,
    /// The status-message queue all components report into.
    pub channel: LogChannel,
}

impl BotEngine {
    /// The messages queued and not yet drained, oldest first.
    pub open spec fn logs(&self) -> Seq<LogMessage> {
        self.channel@
    }

    /// An engine that has scanned nothing, streams nothing and has
    /// logged nothing.
    pub fn new() -> (b: BotEngine)
        ensures
            b.logs() == Seq::<LogMessage>::empty(),
            b.vision.target_window_name@ == "Not Scanned"@,
            b.vision.target_window_pid is None,
            b.vision.target_window_id is None,
            b.vision.window_resolution@ == "0x0"@,
            b.vision.session.state == SessionState::Idle,
    {
        BotEngine {
            vision: VisionEngine::new(),
            input: InputManager::new(),
            channel: LogChannel::new(),
        }
    }

    /// Queues one message with the current wall-clock time. Never blocks
    /// and never fails observably.
    pub fn log(&mut self, message: &str, level: LogLevel)
        ensures
            logged(old(self).logs(), final(self).logs(), level, message@),
            final(self).vision == old(self).vision,
    {
        let timestamp = now_timestamp();
        let msg = LogMessage { timestamp, level, message: message.to_owned() };
        let ghost m = msg;
        self.channel.emit(msg);
        proof {
            assert(final(self).logs() == old(self).logs().push(m));
        }
    }

    /// Hands every queued message to the consumer, oldest first, leaving
    /// the channel empty; the consumer appends them to its own ordered
    /// record.
    pub fn drain_logs(&mut self) -> (msgs: Vec<LogMessage>)
        ensures
            msgs@ == old(self).logs(),
            final(self).logs() == Seq::<LogMessage>::empty(),
            final(self).vision == old(self).vision,
    {
        self.channel.drain_available()
    }

    /// Scans the inventory for the Dofus window and logs what happened:
    /// first the scan announcement, then the found title as a success, a
    /// warning when no title matched, or an error when the inventory was
    /// unavailable. On a match the capture session is (re)started for the
    /// found window and the commands to perform come back.
    pub fn scan_for_window(&mut self, inventory: Option<&Vec<WindowDescriptor>>) -> (cmds: Vec<
        CaptureCommand,
    >)
        ensures
            final(self).logs().len() == old(self).logs().len() + 2,
            final(self).logs().subrange(0, old(self).logs().len() as int) == old(self).logs(),
            final(self).logs()[old(self).logs().len() as int].level == LogLevel::Info,
            final(self).logs()[old(self).logs().len() as int].message@
                == "Scanning for Dofus window..."@,
            match inventory {
                None => {
                    &&& final(self).logs().last().level == LogLevel::Error
                    &&& final(self).logs().last().message@ == "Failed to get shareable content."@
                    &&& final(self).vision == old(self).vision
                    &&& cmds@.len() == 0
                },
                Some(ws) => match first_match(ws@, encode_utf8("Dofus"@)) {
                    Some(i) => {
                        &&& final(self).logs().last().level == LogLevel::Success
                        &&& final(self).logs().last().message@ == ws@[i].title@
                        &&& final(self).vision.target_window_name@ == ws@[i].title@
                        &&& final(self).vision.target_window_pid == Some(ws@[i].pid)
                        &&& final(self).vision.target_window_id == Some(ws@[i].id)
                        &&& final(self).vision.window_resolution@ == resolution_label(
                            ws@[i].width as nat,
                            ws@[i].height as nat,
                        )
                        &&& final(self).vision.session.state == (SessionState::Starting {
                            window_id: ws@[i].id,
                        })
                        &&& cmds@ == start_commands(
                            old(self).vision.session.state,
                            ws@[i].id,
                            ws@[i].width,
                            ws@[i].height,
                        )
                    },
                    None => {
                        &&& final(self).logs().last().level == LogLevel::Warning
                        &&& final(self).logs().last().message@ == "Dofus window not found."@
                        &&& final(self).vision.target_window_name@ == "Dofus not found"@
                        &&& final(self).vision.target_window_pid is None
                        &&& final(self).vision.target_window_id is None
                        &&& final(self).vision.session == old(self).vision.session
                        &&& cmds@.len() == 0
                    },
                },
            },
    {
        self.log("Scanning for Dofus window...", LogLevel::Info);
        let (result, cmds) = self.vision.find_dofus_window(inventory);
        match result {
            Ok(w) => {
                self.log(w.title.as_str(), LogLevel::Success);
            },
            Err(ScanError::NotFound) => {
                self.log("Dofus window not found.", LogLevel::Warning);
            },
            Err(ScanError::InventoryUnavailable) => {
                self.log("Failed to get shareable content.", LogLevel::Error);
            },
        }
        cmds
    }

    /// The process to raise for the Dofus window, when one is known; the
    /// intent or the failure is logged either way. The application
    /// performs the actual raise and may treat its own failure as
    /// advisory.
    pub fn focus_dofus(&mut self) -> (r: Option<i32>)
        ensures
            r == old(self).vision.target_window_pid,
            final(self).vision == old(self).vision,
            match r {
                Some(_) => logged(
                    old(self).logs(),
                    final(self).logs(),
                    LogLevel::Info,
                    "Focusing Dofus window natively..."@,
                ),
                None => logged(
                    old(self).logs(),
                    final(self).logs(),
                    LogLevel::Warning,
                    "Cannot focus Dofus: Window not found."@,
                ),
            },
    {
        match self.vision.target_window_pid {
            Some(pid) => {
                self.log("Focusing Dofus window natively...", LogLevel::Info);
                Some(pid)
            },
            None => {
                self.log("Cannot focus Dofus: Window not found.", LogLevel::Warning);
                None
            },
        }
    }

    /// The bot's own process, handed back for the application to raise,
    /// with the intent logged.
    pub fn focus_bot(&mut self, bot_pid: i32) -> (r: i32)
        ensures
            r == bot_pid,
            final(self).vision == old(self).vision,
            logged(
                old(self).logs(),
                final(self).logs(),
                LogLevel::Info,
                "Focusing Bot window natively..."@,
            ),
    {
        self.log("Focusing Bot window natively...", LogLevel::Info);
        bot_pid
    }

    /// Plans the focus test: when the Dofus process is known, announce,
    /// wait five seconds, focus it, announce, wait five seconds, focus
    /// the bot, announce completion; otherwise a single warning to scan
    /// first. The application runs the plan on a background task — the
    /// caller is not blocked, and the plan cannot be recalled once
    /// handed out.
    pub fn run_test_sequence(&self, bot_pid: i32) -> (plan: Vec<FocusStep>)
        ensures
            match self.vision.target_window_pid {
                Some(p) => {
                    &&& plan@.len() == 7
                    &&& announce_is(plan@[0], LogLevel::Info, "Test: Focusing Dofus in 5s..."@)
                    &&& plan@[1] == (FocusStep::Sleep { ms: 5000 })
                    &&& plan@[2] == (FocusStep::Focus { pid: p })
                    &&& announce_is(
                        plan@[3],
                        LogLevel::Info,
                        "Test: Dofus focused. Focusing Bot in 5s..."@,
                    )
                    &&& plan@[4] == (FocusStep::Sleep { ms: 5000 })
                    &&& plan@[5] == (FocusStep::Focus { pid: bot_pid })
                    &&& announce_is(
                        plan@[6],
                        LogLevel::Success,
                        "Test: Bot focused. Sequence complete."@,
                    )
                },
                None => {
                    &&& plan@.len() == 1
                    &&& announce_is(
                        plan@[0],
                        LogLevel::Warning,
                        "Test: Dofus PID not found. Scan first."@,
                    )
                },
            },
    {
        let mut plan: Vec<FocusStep> = Vec::new();
        match self.vision.target_window_pid {
            Some(p) => {
                plan.push(
                    FocusStep::Announce {
                        level: LogLevel::Info,
                        message: "Test: Focusing Dofus in 5s...".to_owned(),
                    },
                );
                plan.push(FocusStep::Sleep { ms: 5000 });
                plan.push(FocusStep::Focus { pid: p });
                plan.push(
                    FocusStep::Announce {
                        level: LogLevel::Info,
                        message: "Test: Dofus focused. Focusing Bot in 5s...".to_owned(),
                    },
                );
                plan.push(FocusStep::Sleep { ms: 5000 });
                plan.push(FocusStep::Focus { pid: bot_pid });
                plan.push(
                    FocusStep::Announce {
                        level: LogLevel::Success,
                        message: "Test: Bot focused. Sequence complete.".to_owned(),
                    },
                );
            },
            None => {
                plan.push(
                    FocusStep::Announce {
                        level: LogLevel::Warning,
                        message: "Test: Dofus PID not found. Scan first.".to_owned(),
                    },
                );
            },
        }
        plan
    }
}

} // verus!
