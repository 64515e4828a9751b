//! Counting the outcome of a command and reporting it through a notifier.
use vstd::prelude::*;
use vstd::string::StringSliceAdditionalSpecFns;
use crate::text::{decimal, decimal_spec, push_bytes, push_str};

verus! {

/// The command whose outcome is reported.
#[derive(Debug, Clone, Copy, PartialEq, Eq, Structural)]
pub enum CommandKind {
    Rm,
    Cp,
}

impl CommandKind {
    /// The command's name.
    pub fn as_str(self) -> (r: &'static str)
        ensures
            r@ == match self {
                CommandKind::Rm => "rm"@,
                CommandKind::Cp => "cp"@,
            },
    {
        match self {
            CommandKind::Rm => "rm",
            CommandKind::Cp => "cp",
        }
    }
}

/// How many operations of a command succeeded and failed.
#[derive(Debug, Clone, Copy, PartialEq, Eq, Structural)]
pub struct CommandSummary {
    pub kind: CommandKind,
    pub success_count: usize,
    pub failure_count: usize,
}

impl CommandSummary {
    /// A command succeeded when none of its operations failed.
    pub fn is_success(&self) -> (r: bool)
        ensures
            r == (self.failure_count == 0),
    {
        self.failure_count == 0
    }
}

/// Counts successes and failures while a command runs.
#[derive(Debug, Clone, Copy, PartialEq, Eq, Structural)]
pub struct CommandResultCounter {
    kind: CommandKind,
    success_count: usize,
    failure_count: usize,
}

/// Where summaries go. A disabled notifier drops them; an enabled one
/// keeps them, in order, for delivery.
pub struct Notifier {
    pub enabled: bool,
    pub sent: Vec<CommandSummary>,
}

impl Notifier {
    pub fn new(enabled: bool) -> (r: Notifier)
        ensures
            r.enabled == enabled,
            r.sent@.len() == 0,
    {
        Notifier { enabled, sent: Vec::new() }
    }
}

impl CommandResultCounter {
    /// The counts, as `summary` reports them.
    pub closed spec fn spec_summary(&self) -> CommandSummary {
        CommandSummary {
            kind: self.kind,
            success_count: self.success_count,
            failure_count: self.failure_count,
        }
    }

    /// A counter at zero for a command.
    pub fn new(kind: CommandKind) -> (r: Self)
        ensures
            r.spec_summary() == (CommandSummary { kind, success_count: 0, failure_count: 0 }),
    {
        CommandResultCounter { kind, success_count: 0, failure_count: 0 }
    }

    pub fn record_success(&mut self)
        requires
            old(self).spec_summary().success_count < usize::MAX,
        ensures
            final(self).spec_summary() == (CommandSummary {
                success_count: (old(self).spec_summary().success_count + 1) as usize,
                ..old(self).spec_summary()
            }),
    {
        self.success_count = self.success_count + 1;
    }

    pub fn record_failure(&mut self)
        requires
            old(self).spec_summary().failure_count < usize::MAX,
        ensures
            final(self).spec_summary() == (CommandSummary {
                failure_count: (old(self).spec_summary().failure_count + 1) as usize,
                ..old(self).spec_summary()
            }),
    {
        self.failure_count = self.failure_count + 1;
    }

    pub fn record_failures(&mut self, count: usize)
        requires
            old(self).spec_summary().failure_count + count <= usize::MAX,
        ensures
            final(self).spec_summary() == (CommandSummary {
                failure_count: (old(self).spec_summary().failure_count + count) as usize,
                ..old(self).spec_summary()
            }),
    {
        self.failure_count = self.failure_count + count;
    }

    /// The counts so far.
    pub fn summary(&self) -> (r: CommandSummary)
        ensures
            r == self.spec_summary(),
    {
        CommandSummary {
            kind: self.kind,
            success_count: self.success_count,
            failure_count: self.failure_count,
        }
    }

    /// Reports the counts so far.
    pub fn notify(&self, notifier: &mut Notifier)
        ensures
            final(notifier).enabled == old(notifier).enabled,
            final(notifier).sent@ == (if old(notifier).enabled {
                old(notifier).sent@.push(self.spec_summary())
            } else {
                old(notifier).sent@
            }),
    {
        notify_command_result(&self.summary(), notifier);
    }
}

/// Reports a summary: an enabled notifier keeps it for delivery.
pub fn notify_command_result(summary: &CommandSummary, notifier: &mut Notifier)
    ensures
        final(notifier).enabled == old(notifier).enabled,
        final(notifier).sent@ == (if old(notifier).enabled {
            old(notifier).sent@.push(*summary)
        } else {
            old(notifier).sent@
        }),
{
    if notifier.enabled {
        notifier.sent.push(*summary);
    }
}

/// The text of a notification, as bytes.
pub struct NotificationText {
    pub title: Vec<u8>,
    pub subtitle: Vec<u8>,
    pub message: Vec<u8>,
}

pub open spec fn kind_name(kind: CommandKind) -> Seq<u8> {
    match kind {
        CommandKind::Rm => "rm".spec_bytes(),
        CommandKind::Cp => "cp".spec_bytes(),
    }
}

/// `safecmd <command>`; `completed` or `failed`;
/// `success: <n>, failure: <m>`.
pub fn notification_text(summary: &CommandSummary) -> (r: NotificationText)
    ensures
        r.title@ == "safecmd ".spec_bytes() + kind_name(summary.kind),
        r.subtitle@ == (if summary.failure_count == 0 {
            "completed".spec_bytes()
        } else {
            "failed".spec_bytes()
        }),
        r.message@ == "success: ".spec_bytes() + decimal_spec(summary.success_count as nat)
            + ", failure: ".spec_bytes() + decimal_spec(summary.failure_count as nat),
{
    let mut title: Vec<u8> = Vec::new();
    push_str(&mut title, "safecmd ");
    push_str(&mut title, summary.kind.as_str());
    proof {
        match summary.kind {
            CommandKind::Rm => {
                assert("rm".spec_bytes() == kind_name(summary.kind));
            },
            CommandKind::Cp => {},
        }
    }
    let mut subtitle: Vec<u8> = Vec::new();
    if summary.is_success() {
        push_str(&mut subtitle, "completed");
    } else {
        push_str(&mut subtitle, "failed");
    }
    assert(subtitle@ =~= (if summary.failure_count == 0 {
        "completed".spec_bytes()
    } else {
        "failed".spec_bytes()
    }));
    let mut message: Vec<u8> = Vec::new();
    push_str(&mut message, "success: ");
    let s = decimal(summary.success_count as u64);
    push_bytes(&mut message, &s);
    push_str(&mut message, ", failure: ");
    let f = decimal(summary.failure_count as u64);
    push_bytes(&mut message, &f);
    assert(title@ =~= "safecmd ".spec_bytes() + kind_name(summary.kind));
    NotificationText { title, subtitle, message }
}

} // verus!
