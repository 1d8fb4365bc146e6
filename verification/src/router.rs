//! The output router: a state machine that owns the active output target,
//! either the two terminal streams or, once a pager is engaged, the single
//! pipe into the pager subprocess. The shell around the library performs the
//! actual spawning, writing and waiting; every decision and every transition
//! is made here.

use vstd::prelude::*;

use crate::choice::{color_enabled, use_color, PaginationChoice};
use crate::config::{
    color_setting, pager_represents, pager_setting, progress_indicator_setting,
    spec_color_setting, spec_pager_ok, spec_progress_indicator_setting, ui_config_wf,
    CommandError, CommandNameAndArgs, UiConfig,
};
use crate::pagination::{
    pagination_setting, represents, resolved_choice, spec_paginate_ok, Pagination,
};
use crate::progress::{os_stderr, ProgressOutput};

verus! {

/// The shape of the active output target. `Terminal` is the initial state;
/// `Paged` is reachable once per pager session, and `finalize_pager` returns
/// the router to a fresh `Terminal` shape.
#[derive(Clone, Copy, Debug, PartialEq, Eq, Structural)]
pub enum UiOutput {
    Terminal,
    Paged,
}

/// The writer the out-stream currently resolves to.
#[derive(Clone, Copy, Debug, PartialEq, Eq, Structural)]
pub enum UiStdout {
    Terminal,
    Paged,
}

/// The writer the error stream currently resolves to. In the `Paged` shape
/// it is the same pipe as the out-stream: the two streams deliberately merge
/// in write order.
#[derive(Clone, Copy, Debug, PartialEq, Eq, Structural)]
pub enum UiStderr {
    Terminal,
    Paged,
}

/// The error stream a spawned child process should inherit: the process's
/// own standard error, or a duplicate of the pager's input pipe.
#[derive(Clone, Copy, Debug, PartialEq, Eq, Structural)]
pub enum ChildStderr {
    Inherit,
    PagerPipe,
}

/// The styling configuration of a produced writer decorator: whether its
/// labeled spans are colored, and whether printed content is sanitized of
/// terminal escape sequences.
#[derive(Clone, Copy, Debug, PartialEq, Eq, Structural)]
pub struct Formatter {
    pub color: bool,
    pub sanitize: bool,
    pub paged: bool,
}

/// A formatter bound to one labeled span, such as `hint` or `warning`.
#[derive(Debug)]
pub struct LabeledWriter {
    pub formatter: Formatter,
    pub label: String,
}


/// A byte that may pass to a real terminal unneutralized: everything but
/// the control range that can corrupt terminal state. Tab, line feed and
/// carriage return stay; the escape byte and its fellows do not.
pub open spec fn is_safe_byte(b: u8) -> bool {
    (b >= 32 && b != 127) || b == 9 || b == 10 || b == 13
}

/// The content with every unsafe control byte removed, in order.
pub open spec fn sanitized_spec(s: Seq<u8>) -> Seq<u8>
    decreases s.len(),
{
    if s.len() == 0 {
        Seq::empty()
    } else if is_safe_byte(s.last()) {
        sanitized_spec(s.drop_last()).push(s.last())
    } else {
        sanitized_spec(s.drop_last())
    }
}

impl Formatter {
    /// Cleans content that is about to be printed: on a sanitizing
    /// formatter, escape sequences and other control bytes found in the
    /// content are stripped, so printed data cannot corrupt the terminal;
    /// the formatter's own styling is unaffected, and a non-sanitizing
    /// formatter passes content through unchanged.
    pub fn sanitize_content(&self, content: &Vec<u8>) -> (r: Vec<u8>)
        ensures
            self.sanitize ==> r@ == sanitized_spec(content@),
            !self.sanitize ==> r@ == content@,
    {
        let n = content.len();
        let mut r: Vec<u8> = Vec::new();
        let mut i: usize = 0;
        if !self.sanitize {
            while i < n
                invariant
                    n == content@.len(),
                    0 <= i <= n,
                    r@ == content@.subrange(0, i as int),
                decreases n - i,
            {
                r.push(content[i]);
                proof {
                    assert(r@ =~= content@.subrange(0, i as int + 1));
                }
                i = i + 1;
            }
            proof {
                assert(r@ =~= content@);
            }
            return r;
        }
        while i < n
            invariant
                n == content@.len(),
                0 <= i <= n,
                r@ == sanitized_spec(content@.subrange(0, i as int)),
            decreases n - i,
        {
            let b = content[i];
            if (b >= 32 && b != 127) || b == 9 || b == 10 || b == 13 {
                r.push(b);
            }
            proof {
                let prefix = content@.subrange(0, i as int + 1);
                assert(prefix.drop_last() =~= content@.subrange(0, i as int));
                assert(prefix.last() == content@[i as int]);
            }
            i = i + 1;
        }
        proof {
            assert(content@.subrange(0, n as int) =~= content@);
        }
        r
    }
}

/// The interactive output router.
#[derive(Debug)]
pub struct Ui {
    pub color: bool,
    pub sanitize: bool,
    pub progress_indicator: bool,
    pub pager_cmd: CommandNameAndArgs,
    pub paginate: Pagination,
    pub output: UiOutput,
}

/// The configuration-derived fields of two router values agree; only the
/// output shape may differ.
pub open spec fn same_settings(a: Ui, b: Ui) -> bool {
    &&& a.color == b.color
    &&& a.sanitize == b.sanitize
    &&& a.progress_indicator == b.progress_indicator
    &&& a.pager_cmd == b.pager_cmd
    &&& a.paginate == b.paginate
}

/// Whether a pager request must attempt a spawn: the resolved policy is not
/// `never`, the router still holds the terminal streams, and the out-stream
/// is attached to a real terminal.
pub open spec fn spawn_directive(ui: Ui, path: Seq<String>, stdout_is_tty: bool) -> bool {
    &&& !(resolved_choice(ui.paginate, path) is Never)
    &&& ui.output is Terminal
    &&& stdout_is_tty
}

/// Law: once the router is in the `Paged` shape, no pager request directs a
/// spawn, so a second subprocess is never started.
pub proof fn lemma_request_pager_idempotent(ui: Ui, path: Seq<String>, stdout_is_tty: bool)
    requires
        ui.output is Paged,
    ensures
        !spawn_directive(ui, path, stdout_is_tty),
{
}

impl Ui {
    /// Builds a router from configuration, initially holding the terminal
    /// streams. A missing or malformed pager or pagination value is a fatal
    /// configuration error, the pager reported first.
    pub fn with_config(cfg: &UiConfig, stdout_is_tty: bool) -> (r: Result<Ui, CommandError>)
        requires
            ui_config_wf(*cfg),
        ensures
            r is Ok <==> spec_pager_ok(*cfg) && spec_paginate_ok(*cfg),
            !spec_pager_ok(*cfg) ==> r == Err::<Ui, CommandError>(
                CommandError::ConfigError(crate::config::ConfigField::Pager),
            ),
            spec_pager_ok(*cfg) && !spec_paginate_ok(*cfg) ==> r == Err::<Ui, CommandError>(
                CommandError::ConfigError(crate::config::ConfigField::Paginate),
            ),
            r matches Ok(ui) ==> {
                &&& ui.color == color_enabled(spec_color_setting(*cfg), stdout_is_tty)
                &&& ui.sanitize == stdout_is_tty
                &&& ui.progress_indicator == spec_progress_indicator_setting(*cfg)
                &&& pager_represents(ui.pager_cmd, cfg.pager->0)
                &&& represents(ui.paginate, cfg.paginate->0)
                &&& ui.output is Terminal
            },
    {
        let color = use_color(color_setting(cfg), stdout_is_tty);
        let sanitize = stdout_is_tty;
        let progress_indicator = progress_indicator_setting(cfg);
        let pager_cmd = match pager_setting(cfg) {
            Ok(c) => c,
            Err(e) => {
                return Err(e);
            },
        };
        let paginate = match pagination_setting(cfg) {
            Ok(p) => p,
            Err(e) => {
                return Err(e);
            },
        };
        Ok(
            Ui {
                color,
                sanitize,
                progress_indicator,
                pager_cmd,
                paginate,
                output: UiOutput::Terminal,
            },
        )
    }

    /// Re-reads configuration in place. The output state is never touched;
    /// the color decision is updated first, then the pagination policy, the
    /// pager command, the progress switch and the sanitize flag, so an error
    /// partway leaves the later settings as they were.
    pub fn reset(&mut self, cfg: &UiConfig, stdout_is_tty: bool) -> (r: Result<(), CommandError>)
        requires
            ui_config_wf(*cfg),
        ensures
            final(self).output == old(self).output,
            final(self).color == color_enabled(spec_color_setting(*cfg), stdout_is_tty),
            r is Ok <==> spec_paginate_ok(*cfg) && spec_pager_ok(*cfg),
            !spec_paginate_ok(*cfg) ==> r == Err::<(), CommandError>(
                CommandError::ConfigError(crate::config::ConfigField::Paginate),
            ) && final(self).paginate == old(self).paginate
                && final(self).pager_cmd == old(self).pager_cmd
                && final(self).progress_indicator == old(self).progress_indicator
                && final(self).sanitize == old(self).sanitize,
            spec_paginate_ok(*cfg) && !spec_pager_ok(*cfg) ==> r == Err::<(), CommandError>(
                CommandError::ConfigError(crate::config::ConfigField::Pager),
            ) && represents(final(self).paginate, cfg.paginate->0)
                && final(self).pager_cmd == old(self).pager_cmd
                && final(self).progress_indicator == old(self).progress_indicator
                && final(self).sanitize == old(self).sanitize,
            r is Ok ==> {
                &&& represents(final(self).paginate, cfg.paginate->0)
                &&& pager_represents(final(self).pager_cmd, cfg.pager->0)
                &&& final(self).progress_indicator == spec_progress_indicator_setting(*cfg)
                &&& final(self).sanitize == stdout_is_tty
            },
    {
        self.color = use_color(color_setting(cfg), stdout_is_tty);
        self.paginate = match pagination_setting(cfg) {
            Ok(p) => p,
            Err(e) => {
                return Err(e);
            },
        };
        self.pager_cmd = match pager_setting(cfg) {
            Ok(c) => c,
            Err(e) => {
                return Err(e);
            },
        };
        self.progress_indicator = progress_indicator_setting(cfg);
        self.sanitize = stdout_is_tty;
        Ok(())
    }

    /// Decides a pager request for the given command path: whether the shell
    /// must attempt to spawn the configured pager. A resolved `never`, an
    /// already-paged router, or an out-stream that is no terminal all make
    /// the request a no-op.
    pub fn request_pager(&self, subcommands: &Vec<String>, stdout_is_tty: bool) -> (spawn: bool)
        ensures
            spawn == spawn_directive(*self, subcommands@, stdout_is_tty),
    {
        let paginate = self.paginate.resolve(subcommands);
        match paginate {
            PaginationChoice::Never => false,
            PaginationChoice::Always | PaginationChoice::Auto => {
                self.output == UiOutput::Terminal && stdout_is_tty
            },
        }
    }

    /// Records the outcome of a pager spawn the shell attempted. On success
    /// the router transitions to `Paged`; on failure it stays exactly as it
    /// was and yields the pager name for the single warning line owed.
    pub fn note_spawn_result(&mut self, spawned: bool) -> (w: Option<String>)
        requires
            old(self).output is Terminal,
        ensures
            spawned ==> final(self).output is Paged && w is None && same_settings(
                *final(self),
                *old(self),
            ),
            !spawned ==> *final(self) == *old(self) && (w matches Some(name) && name@
                == old(self).pager_cmd.name@),
    {
        if spawned {
            self.output = UiOutput::Paged;
            None
        } else {
            Some(self.pager_cmd.name.clone())
        }
    }

    /// The resolved color decision.
    pub fn color(&self) -> (r: bool)
        ensures
            r == self.color,
    {
        self.color
    }

    /// The writer the out-stream currently resolves to.
    pub fn stdout(&self) -> (r: UiStdout)
        ensures
            self.output is Terminal <==> r is Terminal,
            self.output is Paged <==> r is Paged,
    {
        match self.output {
            UiOutput::Terminal => UiStdout::Terminal,
            UiOutput::Paged => UiStdout::Paged,
        }
    }

    /// The writer the error stream currently resolves to: in the `Paged`
    /// shape, the same pipe as the out-stream.
    pub fn stderr(&self) -> (r: UiStderr)
        ensures
            self.output is Terminal <==> r is Terminal,
            self.output is Paged <==> r is Paged,
    {
        match self.output {
            UiOutput::Terminal => UiStderr::Terminal,
            UiOutput::Paged => UiStderr::Paged,
        }
    }

    /// A formatter for the current out-stream writer.
    pub fn stdout_formatter(&self) -> (r: Formatter)
        ensures
            r.color == self.color,
            r.sanitize == self.sanitize,
            r.paged == (self.output is Paged),
    {
        Formatter {
            color: self.color,
            sanitize: self.sanitize,
            paged: self.output == UiOutput::Paged,
        }
    }

    /// A formatter for the current error stream writer.
    pub fn stderr_formatter(&self) -> (r: Formatter)
        ensures
            r.color == self.color,
            r.sanitize == self.sanitize,
            r.paged == (self.output is Paged),
    {
        Formatter {
            color: self.color,
            sanitize: self.sanitize,
            paged: self.output == UiOutput::Paged,
        }
    }

    /// The error stream a child process spawned by a collaborator should
    /// inherit, so its output interleaves into the pager stream when paged.
    pub fn stderr_for_child(&self) -> (r: ChildStderr)
        ensures
            self.output is Terminal <==> r is Inherit,
            self.output is Paged <==> r is PagerPipe,
    {
        match self.output {
            UiOutput::Terminal => ChildStderr::Inherit,
            UiOutput::Paged => ChildStderr::PagerPipe,
        }
    }

    /// Whether continuous feedback should be displayed for long-running
    /// operations: enabled by configuration, never while paged, and only on
    /// a real terminal. Re-derived on demand, never cached.
    pub fn use_progress_indicator(&self, stderr_is_tty: bool) -> (r: bool)
        ensures
            r == (self.progress_indicator && self.output is Terminal && stderr_is_tty),
    {
        match self.output {
            UiOutput::Terminal => self.progress_indicator && stderr_is_tty,
            UiOutput::Paged => false,
        }
    }

    /// A progress handle on the error stream, if progress should be shown.
    pub fn progress_output(&self, stderr_is_tty: bool) -> (r: Option<ProgressOutput>)
        ensures
            r is Some <==> (self.progress_indicator && self.output is Terminal && stderr_is_tty),
    {
        if self.use_progress_indicator(stderr_is_tty) {
            Some(ProgressOutput::new(os_stderr()))
        } else {
            None
        }
    }

    /// A labeled writer for hints on the error stream.
    pub fn hint(&self) -> (r: LabeledWriter)
        ensures
            r.formatter.color == self.color,
            r.formatter.sanitize == self.sanitize,
            r.formatter.paged == (self.output is Paged),
            r.label@ == "hint"@,
    {
        LabeledWriter { formatter: self.stderr_formatter(), label: "hint".to_owned() }
    }

    /// A labeled writer for warnings on the error stream.
    pub fn warning(&self) -> (r: LabeledWriter)
        ensures
            r.formatter.color == self.color,
            r.formatter.sanitize == self.sanitize,
            r.formatter.paged == (self.output is Paged),
            r.label@ == "warning"@,
    {
        LabeledWriter { formatter: self.stderr_formatter(), label: "warning".to_owned() }
    }

    /// A labeled writer for errors on the error stream.
    pub fn error(&self) -> (r: LabeledWriter)
        ensures
            r.formatter.color == self.color,
            r.formatter.sanitize == self.sanitize,
            r.formatter.paged == (self.output is Paged),
            r.label@ == "error"@,
    {
        LabeledWriter { formatter: self.stderr_formatter(), label: "error".to_owned() }
    }

    /// Ends the pager session: in the `Paged` shape the shell owes exactly
    /// one close-and-wait on the subprocess, and the router returns to a
    /// fresh `Terminal` shape. In the `Terminal` shape nothing is owed and
    /// nothing changes.
    pub fn finalize_pager(&mut self) -> (wait: bool)
        ensures
            old(self).output is Paged ==> wait && final(self).output is Terminal && same_settings(
                *final(self),
                *old(self),
            ),
            old(self).output is Terminal ==> !wait && *final(self) == *old(self),
    {
        match self.output {
            UiOutput::Paged => {
                self.output = UiOutput::Terminal;
                true
            },
            UiOutput::Terminal => false,
        }
    }

    /// The terminal width: an explicit override wins, otherwise the live
    /// terminal is measured anew on every call.
    pub fn term_width(&self, columns_override: Option<u16>) -> (r: Option<u16>)
        ensures
            columns_override is Some ==> r == columns_override,
    {
        crate::progress::term_width(columns_override)
    }
}

} // verus!
