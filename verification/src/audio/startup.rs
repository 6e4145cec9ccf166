//! The order in which the audio hardware is started.
//!
//! The bit clock of the serial audio interface must not start before both
//! DMA streams run and the transmit FIFO holds data, or the first block is
//! dropped or garbled. The sequencer here says what to do next; the caller
//! does it on the hardware and reports back.

use vstd::prelude::*;

verus! {

/// What the caller has to do next.
#[derive(Clone, Copy, Debug, PartialEq, Eq, Structural)]
pub enum StartupStep {
    /// Start the input DMA stream.
    StartInputStream,
    /// Enable the DMA request of the receive channel.
    EnableReceiveRequest,
    /// Start the output DMA stream.
    StartOutputStream,
    /// Enable the DMA request of the transmit channel.
    EnableTransmitRequest,
    /// Read the level of the transmit FIFO, and report whether it is empty.
    AwaitFifo,
    /// Enable the serial audio interface.
    EnablePeripheral,
    /// Transmit one frame of silence to prime the pipeline.
    PrimeTransmit,
    /// Nothing: audio is running.
    Running,
    /// Nothing: the peripheral has failed, and there is no recovery.
    Faulted,
}

/// How the step that was handed out has ended.
#[derive(Clone, Copy, Debug, PartialEq, Eq, Structural)]
pub enum StartupReport {
    /// The step is done. For [`StartupStep::AwaitFifo`]: the FIFO holds data.
    Done,
    /// The transmit FIFO is still empty.
    FifoEmpty,
    /// The peripheral has refused the step.
    Failed,
}

impl StartupStep {
    /// The place of a step in the order of startup.
    pub open spec fn rank(self) -> nat {
        match self {
            StartupStep::StartInputStream => 0,
            StartupStep::EnableReceiveRequest => 1,
            StartupStep::StartOutputStream => 2,
            StartupStep::EnableTransmitRequest => 3,
            StartupStep::AwaitFifo => 4,
            StartupStep::EnablePeripheral => 5,
            StartupStep::PrimeTransmit => 6,
            StartupStep::Running => 7,
            StartupStep::Faulted => 8,
        }
    }

    /// Whether nothing is left to do, for better or worse.
    pub open spec fn is_final(self) -> bool {
        self == StartupStep::Running || self == StartupStep::Faulted
    }

    /// The step that follows in the order of startup.
    pub open spec fn successor(self) -> StartupStep {
        match self {
            StartupStep::StartInputStream => StartupStep::EnableReceiveRequest,
            StartupStep::EnableReceiveRequest => StartupStep::StartOutputStream,
            StartupStep::StartOutputStream => StartupStep::EnableTransmitRequest,
            StartupStep::EnableTransmitRequest => StartupStep::AwaitFifo,
            StartupStep::AwaitFifo => StartupStep::EnablePeripheral,
            StartupStep::EnablePeripheral => StartupStep::PrimeTransmit,
            StartupStep::PrimeTransmit => StartupStep::Running,
            StartupStep::Running => StartupStep::Running,
            StartupStep::Faulted => StartupStep::Faulted,
        }
    }

    /// The step to take after this one has ended as reported.
    ///
    /// A step that is done is followed by its successor. A failure ends
    /// startup. An empty FIFO leaves the step as it is: the caller reads the
    /// level again. The two final steps stay whatever is reported.
    pub open spec fn after(self, report: StartupReport) -> StartupStep {
        if self.is_final() {
            self
        } else {
            match report {
                StartupReport::Done => self.successor(),
                StartupReport::FifoEmpty => self,
                StartupReport::Failed => StartupStep::Faulted,
            }
        }
    }

    /// The step to take after a run of reports, starting from this one.
    pub open spec fn after_all(self, reports: Seq<StartupReport>) -> StartupStep
        decreases reports.len(),
    {
        if reports.len() == 0 {
            self
        } else {
            self.after_all(reports.drop_last()).after(reports.last())
        }
    }
}

/// The startup sequencer.
pub struct Startup {
    step: StartupStep,
}

impl View for Startup {
    type V = StartupStep;

    closed spec fn view(&self) -> StartupStep {
        self.step
    }
}

impl Startup {
    /// A sequencer at the first step.
    pub fn new() -> (startup: Self)
        ensures
            startup@ == StartupStep::StartInputStream,
    {
        Startup { step: StartupStep::StartInputStream }
    }

    /// What the caller has to do next.
    pub fn step(&self) -> (step: StartupStep)
        ensures
            step == self@,
    {
        self.step
    }

    /// Whether audio is running.
    pub fn is_running(&self) -> (running: bool)
        ensures
            running == (self@ == StartupStep::Running),
    {
        self.step == StartupStep::Running
    }

    /// Takes the report on the step that was handed out, and moves on.
    pub fn advance(&mut self, report: StartupReport) -> (step: StartupStep)
        ensures
            final(self)@ == old(self)@.after(report),
            step == final(self)@,
    {
        let next = match self.step {
            StartupStep::Running => StartupStep::Running,
            StartupStep::Faulted => StartupStep::Faulted,
            current => match report {
                StartupReport::Failed => StartupStep::Faulted,
                StartupReport::FifoEmpty => current,
                StartupReport::Done => match current {
                    StartupStep::StartInputStream => StartupStep::EnableReceiveRequest,
                    StartupStep::EnableReceiveRequest => StartupStep::StartOutputStream,
                    StartupStep::StartOutputStream => StartupStep::EnableTransmitRequest,
                    StartupStep::EnableTransmitRequest => StartupStep::AwaitFifo,
                    StartupStep::AwaitFifo => StartupStep::EnablePeripheral,
                    StartupStep::EnablePeripheral => StartupStep::PrimeTransmit,
                    StartupStep::PrimeTransmit => StartupStep::Running,
                    StartupStep::Running => StartupStep::Running,
                    StartupStep::Faulted => StartupStep::Faulted,
                },
            },
        };
        self.step = next;
        next
    }
}

/// No step is skipped and none is taken twice: a report leaves the step as
/// it is, moves to the one that follows it in order, or ends in a fault.
pub proof fn lemma_one_step_at_a_time(step: StartupStep, report: StartupReport)
    ensures
        ({
            let next = step.after(report);
            ||| next == step
            ||| next == StartupStep::Faulted
            ||| next.rank() == step.rank() + 1
        }),
        step.is_final() ==> step.after(report) == step,
        step.after(report) == StartupStep::EnablePeripheral && step
            != StartupStep::EnablePeripheral ==> step == StartupStep::AwaitFifo && report
            == StartupReport::Done,
{
}

/// Over any run of reports the steps come in order: a step is reached only
/// after as many reports as there are steps before it, and startup ends in
/// a fault only where a failure was reported. So the interface is enabled
/// only after both streams run, both DMA requests are enabled and the FIFO
/// was found to hold data.
pub proof fn lemma_steps_in_order(reports: Seq<StartupReport>)
    ensures
        ({
            let step = StartupStep::StartInputStream.after_all(reports);
            &&& step != StartupStep::Faulted ==> step.rank() <= reports.len()
            &&& step == StartupStep::Faulted ==> exists|i: int|
                0 <= i < reports.len() && reports[i] == StartupReport::Failed
        }),
    decreases reports.len(),
{
    if reports.len() > 0 {
        let head = reports.drop_last();
        lemma_steps_in_order(head);
        let before = StartupStep::StartInputStream.after_all(head);
        let step = before.after(reports.last());
        if step == StartupStep::Faulted {
            if before == StartupStep::Faulted {
                let i = choose|i: int| 0 <= i < head.len() && head[i] == StartupReport::Failed;
                assert(reports[i] == StartupReport::Failed);
            } else {
                assert(reports[reports.len() - 1] == StartupReport::Failed);
            }
        }
    }
}

/// Seven reports of success in a row bring the hardware up.
pub proof fn lemma_startup_completes()
    ensures
        StartupStep::StartInputStream.after_all(Seq::new(7, |i: int| StartupReport::Done))
            == StartupStep::Running,
{
    let all = Seq::new(7, |i: int| StartupReport::Done);
    let start = StartupStep::StartInputStream;
    assert(all.take(0) =~= Seq::<StartupReport>::empty());
    assert(start.after_all(all.take(0)) == start);
    lemma_done_advances(all, 0);
    lemma_done_advances(all, 1);
    lemma_done_advances(all, 2);
    lemma_done_advances(all, 3);
    lemma_done_advances(all, 4);
    lemma_done_advances(all, 5);
    lemma_done_advances(all, 6);
    assert(all.take(7) =~= all);
}

/// One more report of success moves one step on.
proof fn lemma_done_advances(reports: Seq<StartupReport>, k: int)
    requires
        0 <= k < reports.len(),
        reports[k] == StartupReport::Done,
    ensures
        StartupStep::StartInputStream.after_all(reports.take(k + 1))
            == StartupStep::StartInputStream.after_all(reports.take(k)).after(StartupReport::Done),
{
    assert(reports.take(k + 1).drop_last() =~= reports.take(k));
}

} // verus!
