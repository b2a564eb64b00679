//! The `now` command's plan: whether to back up first, how to read the
//! configuration, and which phases to run, in order.

use vstd::prelude::*;
use crate::text::str_eq;

verus! {

/// A phase of `now`.
#[derive(Clone, Copy, Debug, PartialEq, Eq, Structural)]
pub enum NowStep {
    Tools,
    Fonts,
    Shell,
    Settings,
}

/// What `now` does, in order.
#[derive(Debug, Clone, PartialEq)]
pub struct NowPlan {
    /// Back up the configuration directory first (not in a dry run).
    pub backup: bool,
    /// Read `config.yaml` as the main file naming the others, rather than
    /// a single configuration file.
    pub load_master: bool,
    /// The phases to run, for the configurations that were found.
    pub steps: Vec<NowStep>,
}

/// The place of a phase in the order `now` runs them.
pub open spec fn step_rank(s: NowStep) -> int {
    match s {
        NowStep::Tools => 0,
        NowStep::Fonts => 1,
        NowStep::Shell => 2,
        NowStep::Settings => 3,
    }
}

/// The phases for the configurations found, in the order `now` runs them:
/// tools, fonts, shell, settings.
pub open spec fn now_steps(has_tools: bool, has_fonts: bool, has_shell: bool, has_settings: bool) -> Seq<NowStep> {
    (if has_tools { seq![NowStep::Tools] } else { seq![] }) + (if has_fonts {
        seq![NowStep::Fonts]
    } else {
        seq![]
    }) + (if has_shell { seq![NowStep::Shell] } else { seq![] }) + (if has_settings {
        seq![NowStep::Settings]
    } else {
        seq![]
    })
}

/// Plans a `now` run: a backup unless it is a dry run, the main
/// configuration read as such when the file is `config.yaml`, and one phase
/// per configuration found.
pub fn run(
    dry_run: bool,
    config_filename: &str,
    has_tools: bool,
    has_fonts: bool,
    has_shell: bool,
    has_settings: bool,
) -> (r: NowPlan)
    ensures
        r.backup == !dry_run,
        r.load_master == (config_filename@ == "config.yaml"@),
        r.steps@ == now_steps(has_tools, has_fonts, has_shell, has_settings),
{
    let mut steps: Vec<NowStep> = Vec::new();
    if has_tools {
        steps.push(NowStep::Tools);
    }
    if has_fonts {
        steps.push(NowStep::Fonts);
    }
    if has_shell {
        steps.push(NowStep::Shell);
    }
    if has_settings {
        steps.push(NowStep::Settings);
    }
    proof {
        assert(steps@ =~= now_steps(has_tools, has_fonts, has_shell, has_settings));
    }
    NowPlan { backup: !dry_run, load_master: str_eq(config_filename, "config.yaml"), steps }
}


/// Each phase is planned exactly when its configuration was found,
/// whatever other configurations were found; the phases come in the order
/// tools, fonts, shell, settings, each at most once.
pub proof fn law_steps_follow_configurations(has_tools: bool, has_fonts: bool, has_shell: bool, has_settings: bool)
    ensures
        now_steps(has_tools, has_fonts, has_shell, has_settings).contains(NowStep::Tools) <==> has_tools,
        now_steps(has_tools, has_fonts, has_shell, has_settings).contains(NowStep::Fonts) <==> has_fonts,
        now_steps(has_tools, has_fonts, has_shell, has_settings).contains(NowStep::Shell) <==> has_shell,
        now_steps(has_tools, has_fonts, has_shell, has_settings).contains(NowStep::Settings) <==> has_settings,
        now_steps(has_tools, has_fonts, has_shell, has_settings).len() == (if has_tools { 1int } else { 0int }) + (
        if has_fonts { 1int } else { 0int }) + (if has_shell { 1int } else { 0int }) + (if has_settings {
            1int
        } else {
            0int
        }),
        forall|i: int, j: int|
            0 <= i < j < now_steps(has_tools, has_fonts, has_shell, has_settings).len() ==> step_rank(
                #[trigger] now_steps(has_tools, has_fonts, has_shell, has_settings)[i],
            ) < step_rank(#[trigger] now_steps(has_tools, has_fonts, has_shell, has_settings)[j]),
{
    let a: Seq<NowStep> = if has_tools { seq![NowStep::Tools] } else { seq![] };
    let b: Seq<NowStep> = if has_fonts { seq![NowStep::Fonts] } else { seq![] };
    let c: Seq<NowStep> = if has_shell { seq![NowStep::Shell] } else { seq![] };
    let d: Seq<NowStep> = if has_settings { seq![NowStep::Settings] } else { seq![] };
    let s = now_steps(has_tools, has_fonts, has_shell, has_settings);
    assert(s == a + b + c + d);
    assert forall|x: NowStep| s.contains(x) <==> (a.contains(x) || b.contains(x) || c.contains(x) || d.contains(x)) by {
        if s.contains(x) {
            let k = choose|k: int| 0 <= k < s.len() && s[k] == x;
            if k < a.len() {
                assert(a[k] == x);
            } else if k < a.len() + b.len() {
                assert(b[k - a.len()] == x);
            } else if k < a.len() + b.len() + c.len() {
                assert(c[k - a.len() - b.len()] == x);
            } else {
                assert(d[k - a.len() - b.len() - c.len()] == x);
            }
        }
        if a.contains(x) {
            let k = choose|k: int| 0 <= k < a.len() && a[k] == x;
            assert(s[k] == x);
        }
        if b.contains(x) {
            let k = choose|k: int| 0 <= k < b.len() && b[k] == x;
            assert(s[a.len() + k] == x);
        }
        if c.contains(x) {
            let k = choose|k: int| 0 <= k < c.len() && c[k] == x;
            assert(s[a.len() + b.len() + k] == x);
        }
        if d.contains(x) {
            let k = choose|k: int| 0 <= k < d.len() && d[k] == x;
            assert(s[a.len() + b.len() + c.len() + k] == x);
        }
    }
    assert(a.contains(NowStep::Tools) == has_tools) by {
        if has_tools {
            assert(a[0] == NowStep::Tools);
        }
    }
    assert(b.contains(NowStep::Fonts) == has_fonts) by {
        if has_fonts {
            assert(b[0] == NowStep::Fonts);
        }
    }
    assert(c.contains(NowStep::Shell) == has_shell) by {
        if has_shell {
            assert(c[0] == NowStep::Shell);
        }
    }
    assert(d.contains(NowStep::Settings) == has_settings) by {
        if has_settings {
            assert(d[0] == NowStep::Settings);
        }
    }
    assert forall|i: int| 0 <= i < s.len() implies #[trigger] step_rank(s[i]) == (if i < a.len() {
        0int
    } else if i < a.len() + b.len() {
        1int
    } else if i < a.len() + b.len() + c.len() {
        2int
    } else {
        3int
    }) by {
        if i < a.len() {
            assert(s[i] == a[i]);
        } else if i < a.len() + b.len() {
            assert(s[i] == b[i - a.len()]);
        } else if i < a.len() + b.len() + c.len() {
            assert(s[i] == c[i - a.len() - b.len()]);
        } else {
            assert(s[i] == d[i - a.len() - b.len() - c.len()]);
        }
    }
}

} // verus!
