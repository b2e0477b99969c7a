//! The driver's state and the cycle counter.

use vstd::prelude::*;
use crate::machine::Machine;

verus! {

/// How long the driver sleeps while it is paused, in milliseconds.
pub const PAUSE_DELAY_MS: u32 = 10;

/// What happened outside the core since the driver was last asked.
#[derive(Debug, PartialEq, Eq)]
pub enum EmuEvent {
    /// The program was started with these arguments, its own name first.
    Launch(Vec<String>),
    /// The cartridge is loaded, the window system is up and the
    /// processor is initialised.
    Ready,
    /// The sleep that was asked for is over.
    Waited,
    /// The processor made a step; `false` where it cannot go on.
    Stepped(bool),
}

/// What the driver's caller has to do next.
#[derive(Debug, PartialEq, Eq)]
pub enum EmuAction {
    /// No cartridge was named: say how the program is used, and fail.
    ShowUsage,
    /// Load the cartridge from this file.
    LoadCart(String),
    /// Sleep for so many milliseconds.
    Wait(u32),
    /// Make one step of the processor.
    Step,
    /// Leave the loop.
    Stop,
}

/// The state of the driver loop: whether it runs, whether it is paused,
/// and the cycles counted so far.
#[derive(Debug, Clone, Copy, PartialEq, Eq, Structural)]
pub struct EmuContext {
    pub paused: bool,
    pub running: bool,
    pub ticks: u64,
}

/// The counter after `cpu_cycles` more cycles. The counter is 64 bits wide
/// and starts again from zero when it is full; a count that is not
/// positive adds nothing.
pub open spec fn ticks_after(ticks: u64, cpu_cycles: i32) -> u64 {
    if cpu_cycles <= 0 {
        ticks
    } else if ticks + cpu_cycles > u64::MAX {
        (ticks + cpu_cycles - 0x1_0000_0000_0000_0000) as u64
    } else {
        (ticks + cpu_cycles) as u64
    }
}

impl EmuContext {
    /// What the head of the driver loop decides: to stop when the driver
    /// does not run, to sleep while it is paused, else to step.
    pub open spec fn next_action(self) -> EmuAction {
        if !self.running {
            EmuAction::Stop
        } else if self.paused {
            EmuAction::Wait(PAUSE_DELAY_MS)
        } else {
            EmuAction::Step
        }
    }

    /// The driver as it starts the loop: running, not paused, no cycle counted.
    pub open spec fn started() -> EmuContext {
        EmuContext { paused: false, running: true, ticks: 0 }
    }

    /// A driver that is neither running nor paused, with no cycle counted.
    pub fn new() -> (ctx: EmuContext)
        ensures
            ctx == (EmuContext { paused: false, running: false, ticks: 0 }),
    {
        EmuContext { paused: false, running: false, ticks: 0 }
    }
}

/// Counts `cpu_cycles` machine cycles.
pub fn emu_cycles(ctx: &mut EmuContext, cpu_cycles: i32)
    ensures
        *final(ctx) == (EmuContext { ticks: ticks_after(old(ctx).ticks, cpu_cycles), ..*old(ctx) }),
{
    if cpu_cycles > 0 {
        ctx.ticks = ctx.ticks.wrapping_add(cpu_cycles as u64);
    }
}

/// The driver's context.
pub fn emu_get_context(m: &Machine) -> (ctx: &EmuContext)
    ensures
        *ctx == m.emu,
{
    &m.emu
}

/// The head of the driver loop.
fn next_action(ctx: &EmuContext) -> (action: EmuAction)
    ensures
        action == ctx.next_action(),
{
    if !ctx.running {
        EmuAction::Stop
    } else if ctx.paused {
        EmuAction::Wait(PAUSE_DELAY_MS)
    } else {
        EmuAction::Step
    }
}

/// The driver: told what happened, it says what to do next.
///
/// - At the launch it asks for the cartridge that the first argument
///   names, or for the usage message where there is none.
/// - Once everything is ready it starts the loop.
/// - After a sleep, and after a step that went well, it decides anew:
///   stop, sleep or step.
/// - After a step that did not go well it stops.
pub fn emu_run(ctx: &mut EmuContext, event: EmuEvent) -> (action: EmuAction)
    ensures
        match event {
            EmuEvent::Launch(args) => *final(ctx) == *old(ctx) && (if args@.len() < 2 {
                action is ShowUsage
            } else {
                action is LoadCart && action->LoadCart_0@ == args@[1]@
            }),
            EmuEvent::Ready => *final(ctx) == EmuContext::started() && action == EmuAction::Step,
            EmuEvent::Waited => *final(ctx) == *old(ctx) && action == old(ctx).next_action(),
            EmuEvent::Stepped(ok) => *final(ctx) == *old(ctx) && action == (if ok {
                old(ctx).next_action()
            } else {
                EmuAction::Stop
            }),
        },
{
    match event {
        EmuEvent::Launch(args) => {
            if args.len() < 2 {
                return EmuAction::ShowUsage;
            }
            EmuAction::LoadCart(args[1].clone())
        },
        EmuEvent::Ready => {
            ctx.running = true;
            ctx.paused = false;
            ctx.ticks = 0;
            next_action(ctx)
        },
        EmuEvent::Waited => next_action(ctx),
        EmuEvent::Stepped(ok) => {
            if !ok {
                return EmuAction::Stop;
            }
            next_action(ctx)
        },
    }
}

} // verus!
