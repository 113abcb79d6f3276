//! The fallback chain over extraction tools: which candidates are tried for
//! an archive, in which order, how each is invoked, and what is reported
//! when one succeeds or all have failed. Running a tool is the caller's
//! work; the chain decides what to run next and keeps the diagnostics.

use crate::error::PatcherError;
use crate::text::{lemma_occurs_widen, occurs, occurs_at, strings_view};
use vstd::prelude::*;

verus! {

/// The two archives that a build goes through.
#[derive(Clone, Copy, Debug, PartialEq, Eq, Structural)]
pub enum ArchiveKind {
    /// The installer container downloaded from the vendor.
    Installer,
    /// The packed resource archive found inside the installer.
    ResourceArchive,
}

/// An extraction candidate.
#[derive(Clone, Copy, Debug, PartialEq, Eq, Structural)]
pub enum Tool {
    /// The 7-Zip program, wherever it is installed.
    SevenZip,
    /// The `p7zip` program.
    P7zip,
    /// The zip decoder that is built in.
    ZipDecoder,
    /// The `asar` program.
    AsarCli,
    /// The `asar` package run through `npx`.
    NpxAsar,
    /// The asar decoder that is built in.
    AsarDecoder,
}

/// Why a candidate failed.
#[derive(Clone, Copy, Debug, PartialEq, Eq, Structural)]
pub enum Cause {
    /// The tool could not be found or started.
    NotFound,
    /// The tool ran and rejected the input.
    Rejected,
}

/// What came of invoking one candidate.
#[derive(Debug)]
pub enum AttemptOutcome {
    /// The candidate unpacked the archive.
    Succeeded,
    /// The candidate could not be found or started; the text says why.
    Unavailable(String),
    /// The candidate ran and rejected the input; the text is what it
    /// reported.
    Rejected(String),
}

/// The mathematical value of an [`AttemptOutcome`].
pub enum OutcomeView {
    Succeeded,
    Unavailable(Seq<char>),
    Rejected(Seq<char>),
}

impl View for AttemptOutcome {
    type V = OutcomeView;

    open spec fn view(&self) -> OutcomeView {
        match self {
            AttemptOutcome::Succeeded => OutcomeView::Succeeded,
            AttemptOutcome::Unavailable(detail) => OutcomeView::Unavailable(detail@),
            AttemptOutcome::Rejected(detail) => OutcomeView::Rejected(detail@),
        }
    }
}

/// The diagnostic of one failed candidate.
#[derive(Debug)]
pub struct Failure {
    pub tool: Tool,
    pub cause: Cause,
    pub detail: String,
}

/// The mathematical value of a [`Failure`].
pub struct FailureView {
    pub tool: Tool,
    pub cause: Cause,
    pub detail: Seq<char>,
}

impl View for Failure {
    type V = FailureView;

    open spec fn view(&self) -> FailureView {
        FailureView { tool: self.tool, cause: self.cause, detail: self.detail@ }
    }
}

/// The views of a list of failures, in order.
pub open spec fn failures_view(failures: Seq<Failure>) -> Seq<FailureView> {
    Seq::new(failures.len(), |i: int| failures[i]@)
}

/// One run of a fallback chain: the candidates in their order of
/// preference, the failures so far, and the candidate that succeeded.
#[derive(Debug)]
pub struct Extraction {
    pub kind: ArchiveKind,
    pub chain: Vec<Tool>,
    pub failures: Vec<Failure>,
    pub winner: Option<Tool>,
}

/// The mathematical value of an [`Extraction`].
pub struct ExtractionView {
    pub kind: ArchiveKind,
    pub chain: Seq<Tool>,
    pub failures: Seq<FailureView>,
    pub winner: Option<Tool>,
}

impl View for Extraction {
    type V = ExtractionView;

    open spec fn view(&self) -> ExtractionView {
        ExtractionView {
            kind: self.kind,
            chain: self.chain@,
            failures: failures_view(self.failures@),
            winner: self.winner,
        }
    }
}

/// How a run stands.
#[derive(Debug)]
pub enum Verdict {
    /// This candidate is to be invoked next.
    Pending(Tool),
    /// This candidate unpacked the archive.
    Extracted(Tool),
    /// Every candidate failed.
    Failed(PatcherError),
}

/// The candidates for an archive, from the officially packaged tool down to
/// the built-in decoder.
pub open spec fn default_chain_spec(kind: ArchiveKind) -> Seq<Tool> {
    match kind {
        ArchiveKind::Installer => seq![Tool::SevenZip, Tool::P7zip, Tool::ZipDecoder],
        ArchiveKind::ResourceArchive => seq![Tool::AsarCli, Tool::NpxAsar, Tool::AsarDecoder],
    }
}

/// The candidates for an archive, in their order of preference.
pub fn default_chain(kind: ArchiveKind) -> (r: Vec<Tool>)
    ensures
        r@ == default_chain_spec(kind),
{
    let mut chain: Vec<Tool> = Vec::new();
    match kind {
        ArchiveKind::Installer => {
            chain.push(Tool::SevenZip);
            chain.push(Tool::P7zip);
            chain.push(Tool::ZipDecoder);
        },
        ArchiveKind::ResourceArchive => {
            chain.push(Tool::AsarCli);
            chain.push(Tool::NpxAsar);
            chain.push(Tool::AsarDecoder);
        },
    }
    proof {
        assert(chain@ =~= default_chain_spec(kind));
    }
    chain
}

/// The name under which a candidate appears in diagnostics.
pub open spec fn tool_name_spec(tool: Tool) -> Seq<char> {
    match tool {
        Tool::SevenZip => "7z"@,
        Tool::P7zip => "p7zip"@,
        Tool::ZipDecoder => "built-in zip decoder"@,
        Tool::AsarCli => "asar"@,
        Tool::NpxAsar => "npx asar"@,
        Tool::AsarDecoder => "built-in asar decoder"@,
    }
}

/// The name under which a candidate appears in diagnostics.
pub fn tool_name(tool: Tool) -> (r: &'static str)
    ensures
        r@ == tool_name_spec(tool),
{
    match tool {
        Tool::SevenZip => "7z",
        Tool::P7zip => "p7zip",
        Tool::ZipDecoder => "built-in zip decoder",
        Tool::AsarCli => "asar",
        Tool::NpxAsar => "npx asar",
        Tool::AsarDecoder => "built-in asar decoder",
    }
}

/// The program that a candidate runs, where it is known by name. 7-Zip is
/// searched for, and the decoders run no program.
pub open spec fn program_spec(tool: Tool) -> Option<Seq<char>> {
    match tool {
        Tool::P7zip => Some("p7zip"@),
        Tool::AsarCli => Some("asar"@),
        Tool::NpxAsar => Some("npx"@),
        _ => None,
    }
}

/// The program that a candidate runs, where it is known by name.
pub fn program(tool: Tool) -> (r: Option<&'static str>)
    ensures
        match r {
            Some(name) => program_spec(tool) == Some(name@),
            None => program_spec(tool).is_none(),
        },
{
    match tool {
        Tool::P7zip => Some("p7zip"),
        Tool::AsarCli => Some("asar"),
        Tool::NpxAsar => Some("npx"),
        _ => None,
    }
}

/// The arguments with which a candidate's program is run on an input file
/// and an output directory. The decoders take none.
pub open spec fn arguments_spec(tool: Tool, input: Seq<char>, output: Seq<char>) -> Seq<Seq<char>> {
    match tool {
        Tool::SevenZip => seq!["x"@, "-y"@, "-o"@ + output, input],
        Tool::P7zip => seq!["-d"@, "-k"@, input],
        Tool::AsarCli => seq!["extract"@, input, output],
        Tool::NpxAsar => seq!["asar"@, "extract"@, input, output],
        _ => Seq::empty(),
    }
}

/// The arguments with which a candidate's program is run.
pub fn arguments(tool: Tool, input: &str, output: &str) -> (r: Vec<String>)
    ensures
        strings_view(r@) == arguments_spec(tool, input@, output@),
{
    let mut args: Vec<String> = Vec::new();
    match tool {
        Tool::SevenZip => {
            args.push("x".to_owned());
            args.push("-y".to_owned());
            args.push("-o".to_owned().concat(output));
            args.push(input.to_owned());
        },
        Tool::P7zip => {
            args.push("-d".to_owned());
            args.push("-k".to_owned());
            args.push(input.to_owned());
        },
        Tool::AsarCli => {
            args.push("extract".to_owned());
            args.push(input.to_owned());
            args.push(output.to_owned());
        },
        Tool::NpxAsar => {
            args.push("asar".to_owned());
            args.push("extract".to_owned());
            args.push(input.to_owned());
            args.push(output.to_owned());
        },
        _ => {},
    }
    proof {
        assert(strings_view(args@) =~= arguments_spec(tool, input@, output@));
    }
    args
}

/// The outcome of running a candidate's program: it could not be started,
/// it exited with success, or it ran and failed. `detail` is the system's
/// message in the first case and the program's error output in the last.
pub fn attempt_outcome(started: bool, success: bool, detail: String) -> (r: AttemptOutcome)
    ensures
        r@ == if !started {
            OutcomeView::Unavailable(detail@)
        } else if success {
            OutcomeView::Succeeded
        } else {
            OutcomeView::Rejected(detail@)
        },
{
    if !started {
        AttemptOutcome::Unavailable(detail)
    } else if success {
        AttemptOutcome::Succeeded
    } else {
        AttemptOutcome::Rejected(detail)
    }
}

/// What a built-in decoder does with one entry of an archive.
#[derive(Clone, Copy, Debug, PartialEq, Eq, Structural)]
pub enum EntryPlan {
    /// Leave the entry out.
    Skip,
    /// Create the entry's path as a directory.
    CreateDirectory,
    /// Create the directory above the entry's path and nothing else.
    CreateParent,
    /// Create the directory above the entry's path, then write the entry's
    /// data to the path.
    WriteFile,
}

/// What the zip decoder does with an entry. An entry whose name would lead
/// out of the output directory is left out; a directory entry is created;
/// any other entry is written.
pub fn zip_entry_plan(name_is_enclosed: bool, is_directory: bool) -> (r: EntryPlan)
    ensures
        r == if !name_is_enclosed {
            EntryPlan::Skip
        } else if is_directory {
            EntryPlan::CreateDirectory
        } else {
            EntryPlan::WriteFile
        },
{
    if !name_is_enclosed {
        EntryPlan::Skip
    } else if is_directory {
        EntryPlan::CreateDirectory
    } else {
        EntryPlan::WriteFile
    }
}

/// What the asar decoder does with a file of the archive: a file that
/// holds data is written, and of an empty one only the directory above it
/// is created.
pub fn asar_entry_plan(data_len: usize) -> (r: EntryPlan)
    ensures
        r == if data_len == 0 {
            EntryPlan::CreateParent
        } else {
            EntryPlan::WriteFile
        },
{
    if data_len == 0 {
        EntryPlan::CreateParent
    } else {
        EntryPlan::WriteFile
    }
}

/// A run at its start: nothing has failed and nothing has succeeded.
pub open spec fn start_spec(kind: ArchiveKind, chain: Seq<Tool>) -> ExtractionView {
    ExtractionView { kind, chain, failures: Seq::empty(), winner: None }
}

/// The candidate to invoke next: the one behind those that failed, unless
/// one has succeeded or none is left.
pub open spec fn pending_spec(run: ExtractionView) -> Option<Tool> {
    if run.winner.is_none() && run.failures.len() < run.chain.len() {
        Some(run.chain[run.failures.len() as int])
    } else {
        None
    }
}

/// The run after the outcome of the pending candidate is recorded. A
/// success ends the run; a failure is kept with its cause. Where nothing is
/// pending the run stays as it is.
pub open spec fn record_spec(run: ExtractionView, outcome: OutcomeView) -> ExtractionView {
    match pending_spec(run) {
        None => run,
        Some(tool) => match outcome {
            OutcomeView::Succeeded => ExtractionView { winner: Some(tool), ..run },
            OutcomeView::Unavailable(detail) => ExtractionView {
                failures: run.failures.push(FailureView { tool, cause: Cause::NotFound, detail }),
                ..run
            },
            OutcomeView::Rejected(detail) => ExtractionView {
                failures: run.failures.push(FailureView { tool, cause: Cause::Rejected, detail }),
                ..run
            },
        },
    }
}

/// The run after a sequence of outcomes is recorded, one after another.
pub open spec fn feed_spec(run: ExtractionView, outcomes: Seq<OutcomeView>) -> ExtractionView
    decreases outcomes.len(),
{
    if outcomes.len() == 0 {
        run
    } else {
        record_spec(feed_spec(run, outcomes.drop_last()), outcomes.last())
    }
}

/// The first line of the diagnostic for an archive.
pub open spec fn headline_spec(kind: ArchiveKind) -> Seq<char> {
    match kind {
        ArchiveKind::Installer => "every candidate failed to extract the installer:"@,
        ArchiveKind::ResourceArchive => "every candidate failed to extract app.asar:"@,
    }
}

/// The advice that ends the diagnostic for an archive.
pub open spec fn guidance_spec(kind: ArchiveKind) -> Seq<char> {
    match kind {
        ArchiveKind::Installer =>
            "\nPlease install 7z/7zip and ensure it's in PATH.\nOn Windows: Download from https://www.7-zip.org/\nOn Linux: apt install p7zip-full\nOn macOS: brew install p7zip"@,
        ArchiveKind::ResourceArchive =>
            "\nPlease install asar:\nnpm install -g asar\nOr ensure Node.js/npx is in PATH."@,
    }
}

/// How a cause reads in a diagnostic.
pub open spec fn cause_text_spec(cause: Cause) -> Seq<char> {
    match cause {
        Cause::NotFound => ": tool not found: "@,
        Cause::Rejected => ": tool ran and rejected the input: "@,
    }
}

/// The line of one failure: the candidate's name, the cause, the detail.
pub open spec fn failure_line_spec(failure: FailureView) -> Seq<char> {
    "\n  - "@ + tool_name_spec(failure.tool) + cause_text_spec(failure.cause) + failure.detail
}

/// The lines of the failures, in order.
pub open spec fn failure_lines_spec(failures: Seq<FailureView>) -> Seq<char>
    decreases failures.len(),
{
    if failures.len() == 0 {
        Seq::empty()
    } else {
        failure_lines_spec(failures.drop_last()) + failure_line_spec(failures.last())
    }
}

/// The aggregated diagnostic: the headline, one line for each failure, the
/// advice.
pub open spec fn diagnostic_spec(kind: ArchiveKind, failures: Seq<FailureView>) -> Seq<char> {
    headline_spec(kind) + failure_lines_spec(failures) + guidance_spec(kind)
}

/// The aggregated diagnostic of the failures of a chain.
pub fn diagnostic(kind: ArchiveKind, failures: &Vec<Failure>) -> (r: String)
    ensures
        r@ == diagnostic_spec(kind, failures_view(failures@)),
{
    let mut text: String = match kind {
        ArchiveKind::Installer => "every candidate failed to extract the installer:".to_owned(),
        ArchiveKind::ResourceArchive => "every candidate failed to extract app.asar:".to_owned(),
    };
    let ghost all = failures_view(failures@);
    let mut i: usize = 0;
    while i < failures.len()
        invariant
            i <= failures.len(),
            all == failures_view(failures@),
            text@ == headline_spec(kind) + failure_lines_spec(all.take(i as int)),
        decreases failures.len() - i,
    {
        proof {
            assert(all.take(i + 1).drop_last() == all.take(i as int));
            assert(all.take(i + 1).last() == failures@[i as int]@);
        }
        let failure = &failures[i];
        let ghost before = text@;
        text.append("\n  - ");
        text.append(tool_name(failure.tool));
        match failure.cause {
            Cause::NotFound => text.append(": tool not found: "),
            Cause::Rejected => text.append(": tool ran and rejected the input: "),
        }
        text.append(failure.detail.as_str());
        proof {
            assert(text@ =~= before + failure_line_spec(failure@));
            assert(text@ =~= headline_spec(kind) + failure_lines_spec(all.take(i + 1)));
        }
        i += 1;
    }
    proof {
        assert(all.take(i as int) == all);
    }
    match kind {
        ArchiveKind::Installer => text.append(
            "\nPlease install 7z/7zip and ensure it's in PATH.\nOn Windows: Download from https://www.7-zip.org/\nOn Linux: apt install p7zip-full\nOn macOS: brew install p7zip",
        ),
        ArchiveKind::ResourceArchive => text.append(
            "\nPlease install asar:\nnpm install -g asar\nOr ensure Node.js/npx is in PATH.",
        ),
    }
    text
}

/// The error that a chain ends in when every candidate has failed: an
/// extraction error for the installer, an asar error for the resource
/// archive, each with the aggregated diagnostic.
pub open spec fn exhausted_error_matches(
    kind: ArchiveKind,
    failures: Seq<FailureView>,
    error: PatcherError,
) -> bool {
    &&& match kind {
        ArchiveKind::Installer => error is ExtractionError,
        ArchiveKind::ResourceArchive => error is AsarError,
    }
    &&& error.detail_spec() == diagnostic_spec(kind, failures)
}

impl Extraction {
    /// A run over the default chain of an archive.
    pub fn new(kind: ArchiveKind) -> (r: Extraction)
        ensures
            r@ == start_spec(kind, default_chain_spec(kind)),
    {
        Extraction::with_chain(kind, default_chain(kind))
    }

    /// A run over a chain of the caller's choice.
    pub fn with_chain(kind: ArchiveKind, chain: Vec<Tool>) -> (r: Extraction)
        ensures
            r@ == start_spec(kind, chain@),
    {
        let run = Extraction { kind, chain, failures: Vec::new(), winner: None };
        proof {
            assert(run@.failures =~= Seq::empty());
        }
        run
    }

    /// The candidate to invoke next, if the run is not over.
    pub fn pending(&self) -> (r: Option<Tool>)
        ensures
            r == pending_spec(self@),
    {
        if self.winner.is_none() && self.failures.len() < self.chain.len() {
            Some(self.chain[self.failures.len()])
        } else {
            None
        }
    }

    /// Records the outcome of the pending candidate.
    pub fn record(&mut self, outcome: AttemptOutcome)
        ensures
            final(self)@ == record_spec(old(self)@, outcome@),
    {
        match self.pending() {
            None => {},
            Some(tool) => {
                let ghost before = self@.failures;
                match outcome {
                    AttemptOutcome::Succeeded => {
                        self.winner = Some(tool);
                    },
                    AttemptOutcome::Unavailable(detail) => {
                        self.failures.push(Failure { tool, cause: Cause::NotFound, detail });
                        proof {
                            assert(self@.failures =~= before.push(
                                FailureView { tool, cause: Cause::NotFound, detail: detail@ },
                            ));
                        }
                    },
                    AttemptOutcome::Rejected(detail) => {
                        self.failures.push(Failure { tool, cause: Cause::Rejected, detail });
                        proof {
                            assert(self@.failures =~= before.push(
                                FailureView { tool, cause: Cause::Rejected, detail: detail@ },
                            ));
                        }
                    },
                }
            },
        }
    }

    /// Records a sequence of outcomes, one after another. Outcomes behind
    /// the end of the run change nothing.
    pub fn feed(&mut self, outcomes: &Vec<AttemptOutcome>)
        ensures
            final(self)@ == feed_spec(old(self)@, outcomes_view(outcomes@)),
    {
        let ghost start = self@;
        let ghost all = outcomes_view(outcomes@);
        let mut i: usize = 0;
        while i < outcomes.len()
            invariant
                i <= outcomes.len(),
                all == outcomes_view(outcomes@),
                self@ == feed_spec(start, all.take(i as int)),
            decreases outcomes.len() - i,
        {
            proof {
                assert(all.take(i + 1).drop_last() == all.take(i as int));
                assert(all.take(i + 1).last() == outcomes@[i as int]@);
            }
            let outcome = match &outcomes[i] {
                AttemptOutcome::Succeeded => AttemptOutcome::Succeeded,
                AttemptOutcome::Unavailable(detail) => AttemptOutcome::Unavailable(detail.clone()),
                AttemptOutcome::Rejected(detail) => AttemptOutcome::Rejected(detail.clone()),
            };
            self.record(outcome);
            i += 1;
        }
        proof {
            assert(all.take(i as int) == all);
        }
    }

    /// How the run stands: a candidate is pending, one has succeeded, or all
    /// have failed and the error carries the aggregated diagnostic.
    pub fn verdict(&self) -> (r: Verdict)
        ensures
            match r {
                Verdict::Pending(tool) => pending_spec(self@) == Some(tool),
                Verdict::Extracted(tool) => self@.winner == Some(tool),
                Verdict::Failed(error) => self@.winner.is_none() && pending_spec(self@).is_none()
                    && exhausted_error_matches(self@.kind, self@.failures, error),
            },
    {
        match self.winner {
            Some(tool) => Verdict::Extracted(tool),
            None => match self.pending() {
                Some(tool) => Verdict::Pending(tool),
                None => {
                    let text = diagnostic(self.kind, &self.failures);
                    match self.kind {
                        ArchiveKind::Installer => Verdict::Failed(
                            PatcherError::ExtractionError(text),
                        ),
                        ArchiveKind::ResourceArchive => Verdict::Failed(
                            PatcherError::AsarError(text),
                        ),
                    }
                },
            },
        }
    }
}

/// The views of a list of outcomes, in order.
pub open spec fn outcomes_view(outcomes: Seq<AttemptOutcome>) -> Seq<OutcomeView> {
    Seq::new(outcomes.len(), |i: int| outcomes[i]@)
}

/// The line of a failure holds the name of its candidate.
pub proof fn lemma_line_names_tool(failure: FailureView)
    ensures
        occurs(failure_line_spec(failure), tool_name_spec(failure.tool)),
{
    let name = tool_name_spec(failure.tool);
    assert(occurs_at(name, name, 0)) by {
        assert(name.subrange(0, name.len() as int) =~= name);
    }
    lemma_occurs_widen(
        "\n  - "@,
        name,
        cause_text_spec(failure.cause) + failure.detail,
        name,
    );
    assert(failure_line_spec(failure) =~= "\n  - "@ + name + (cause_text_spec(failure.cause)
        + failure.detail));
}

/// The lines of a list of failures hold the name of each failed candidate.
pub proof fn lemma_lines_name_each(failures: Seq<FailureView>, i: int)
    requires
        0 <= i < failures.len(),
    ensures
        occurs(failure_lines_spec(failures), tool_name_spec(failures[i].tool)),
    decreases failures.len(),
{
    let init = failures.drop_last();
    let name = tool_name_spec(failures[i].tool);
    if i == failures.len() - 1 {
        lemma_line_names_tool(failures.last());
        lemma_occurs_widen(
            failure_lines_spec(init),
            failure_line_spec(failures.last()),
            Seq::empty(),
            name,
        );
        assert(failure_lines_spec(init) + failure_line_spec(failures.last()) + Seq::<char>::empty()
            =~= failure_lines_spec(failures));
    } else {
        lemma_lines_name_each(init, i);
        lemma_occurs_widen(
            Seq::empty(),
            failure_lines_spec(init),
            failure_line_spec(failures.last()),
            name,
        );
        assert(Seq::<char>::empty() + failure_lines_spec(init) + failure_line_spec(failures.last())
            =~= failure_lines_spec(failures));
    }
}

/// Recording two sequences of outcomes one after the other is recording
/// their concatenation.
pub proof fn lemma_feed_concat(run: ExtractionView, first: Seq<OutcomeView>, second: Seq<OutcomeView>)
    ensures
        feed_spec(run, first + second) == feed_spec(feed_spec(run, first), second),
    decreases second.len(),
{
    if second.len() == 0 {
        assert(first + second =~= first);
    } else {
        lemma_feed_concat(run, first, second.drop_last());
        assert((first + second).drop_last() =~= first + second.drop_last());
        assert((first + second).last() == second.last());
    }
}

/// A run in which nothing is pending stays as it is, whatever is recorded.
pub proof fn lemma_feed_after_end(run: ExtractionView, outcomes: Seq<OutcomeView>)
    requires
        pending_spec(run).is_none(),
    ensures
        feed_spec(run, outcomes) == run,
    decreases outcomes.len(),
{
    if outcomes.len() > 0 {
        lemma_feed_after_end(run, outcomes.drop_last());
    }
}

/// While the candidates fail, the run keeps one failure for each, in the
/// order of the chain, and goes on to the next.
pub proof fn lemma_failures_accumulate(
    kind: ArchiveKind,
    chain: Seq<Tool>,
    outcomes: Seq<OutcomeView>,
    n: int,
)
    requires
        0 <= n <= chain.len(),
        n <= outcomes.len(),
        forall|i: int| 0 <= i < n ==> !(outcomes[i] is Succeeded),
    ensures
        feed_spec(start_spec(kind, chain), outcomes.take(n)).winner.is_none(),
        feed_spec(start_spec(kind, chain), outcomes.take(n)).kind == kind,
        feed_spec(start_spec(kind, chain), outcomes.take(n)).chain == chain,
        feed_spec(start_spec(kind, chain), outcomes.take(n)).failures.len() == n,
        forall|i: int|
            0 <= i < n ==> (#[trigger] feed_spec(
                start_spec(kind, chain),
                outcomes.take(n),
            ).failures[i]).tool == chain[i],
    decreases n,
{
    if n > 0 {
        lemma_failures_accumulate(kind, chain, outcomes, n - 1);
        assert(outcomes.take(n).drop_last() =~= outcomes.take(n - 1));
        assert(outcomes.take(n).last() == outcomes[n - 1]);
        let before = feed_spec(start_spec(kind, chain), outcomes.take(n - 1));
        let after = feed_spec(start_spec(kind, chain), outcomes.take(n));
        assert(after == record_spec(before, outcomes[n - 1]));
        assert(pending_spec(before) == Some(chain[n - 1]));
        assert forall|i: int| 0 <= i < n implies (#[trigger] after.failures[i]).tool == chain[i] by {
            if i < n - 1 {
                assert(after.failures[i] == before.failures[i]);
            }
        }
    }
}

/// The first candidate that succeeds wins: where the candidates before the
/// one at `k` fail and that one succeeds, the run ends with it as the
/// winner, holds one failure for each candidate before it, and leaves
/// nothing pending, whatever outcomes are offered behind it. No candidate
/// behind `k` is invoked.
pub proof fn lemma_first_success_wins(
    kind: ArchiveKind,
    chain: Seq<Tool>,
    outcomes: Seq<OutcomeView>,
    k: int,
)
    requires
        0 <= k < chain.len(),
        k < outcomes.len(),
        forall|i: int| 0 <= i < k ==> !(outcomes[i] is Succeeded),
        outcomes[k] is Succeeded,
    ensures
        feed_spec(start_spec(kind, chain), outcomes).winner == Some(chain[k]),
        feed_spec(start_spec(kind, chain), outcomes).failures.len() == k,
        forall|i: int|
            0 <= i < k ==> (#[trigger] feed_spec(start_spec(kind, chain), outcomes).failures[i]).tool
                == chain[i],
        pending_spec(feed_spec(start_spec(kind, chain), outcomes)).is_none(),
{
    let start = start_spec(kind, chain);
    lemma_failures_accumulate(kind, chain, outcomes, k);
    let before = feed_spec(start, outcomes.take(k));
    let upto = outcomes.take(k + 1);
    assert(upto.drop_last() =~= outcomes.take(k));
    assert(upto.last() == outcomes[k]);
    let won = feed_spec(start, upto);
    assert(won == record_spec(before, outcomes[k]));
    assert(pending_spec(before) == Some(chain[k]));
    let rest = outcomes.skip(k + 1);
    assert(upto + rest =~= outcomes);
    lemma_feed_concat(start, upto, rest);
    lemma_feed_after_end(won, rest);
}

/// Where every candidate fails, the run ends without a winner and with
/// nothing pending, holds one failure for each candidate in the order of
/// the chain, and its diagnostic names every one of them.
pub proof fn lemma_all_failed_names_all(kind: ArchiveKind, chain: Seq<Tool>, outcomes: Seq<OutcomeView>)
    requires
        chain.len() <= outcomes.len(),
        forall|i: int| 0 <= i < chain.len() ==> !(outcomes[i] is Succeeded),
    ensures
        feed_spec(start_spec(kind, chain), outcomes).winner.is_none(),
        pending_spec(feed_spec(start_spec(kind, chain), outcomes)).is_none(),
        feed_spec(start_spec(kind, chain), outcomes).failures.len() == chain.len(),
        forall|i: int|
            0 <= i < chain.len() ==> (#[trigger] feed_spec(
                start_spec(kind, chain),
                outcomes,
            ).failures[i]).tool == chain[i],
        forall|i: int|
            0 <= i < chain.len() ==> occurs(
                diagnostic_spec(kind, feed_spec(start_spec(kind, chain), outcomes).failures),
                tool_name_spec(#[trigger] chain[i]),
            ),
{
    let start = start_spec(kind, chain);
    let n = chain.len() as int;
    lemma_failures_accumulate(kind, chain, outcomes, n);
    let ended = feed_spec(start, outcomes.take(n));
    let rest = outcomes.skip(n);
    assert(outcomes.take(n) + rest =~= outcomes);
    lemma_feed_concat(start, outcomes.take(n), rest);
    lemma_feed_after_end(ended, rest);
    assert(feed_spec(start, outcomes) == ended);
    assert forall|i: int| 0 <= i < chain.len() implies occurs(
        diagnostic_spec(kind, ended.failures),
        tool_name_spec(#[trigger] chain[i]),
    ) by {
        assert(ended.failures[i].tool == chain[i]);
        lemma_lines_name_each(ended.failures, i);
        lemma_occurs_widen(
            headline_spec(kind),
            failure_lines_spec(ended.failures),
            guidance_spec(kind),
            tool_name_spec(chain[i]),
        );
    }
}

} // verus!
