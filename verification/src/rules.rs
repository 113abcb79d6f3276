//! The patch rules: which file of the working tree gets which kind of
//! transformation, and the engine that applies a rule to what stands at its
//! target. The engine reads and writes nothing itself: the caller reports
//! what it found at a target and carries out the action that comes back.

use crate::patches::{
    config_js_script, config_js_steps, create_window_script, create_window_steps, html_script,
    html_steps, main_js_script, main_js_steps, not_an_object, package_json_spec,
    patch_package_json,
    system_menu_script, system_menu_steps, MAIN_JS_SEPARATOR, MOD_MAIN_JS, MOD_PRELOAD_JS,
    MOD_RENDERER_CSS, MOD_RENDERER_JS, PRELOAD_JS_SEPARATOR,
};
use crate::paths::{has_extension, has_extension_spec, lemma_separator_behind, lies_below};
use crate::text::{
    apply_script, lemma_replace_list_idempotent, run_script, run_step, script_view, step_settled,
    EditStep, EditStepView,
};
use vstd::prelude::*;

verus! {

/// The kind of a patch rule, with what it needs to do its work.
#[derive(Debug)]
pub enum PatchKind {
    /// The target is the package metadata; it is read as a document and
    /// mutated. The target must exist.
    JsonMutation,
    /// The target's text goes through a script of literal replacements,
    /// which may also put a prelude in front.
    TextReplaceList(Vec<EditStep>),
    /// The target's text goes through a script that ends by appending a
    /// block.
    TextAppend(Vec<EditStep>),
    /// Every file below the target whose name has the extension goes
    /// through the script.
    TreeRewrite { extension: String, script: Vec<EditStep> },
    /// The target is a directory that is removed with all it holds.
    DirectoryRemoval,
}

/// The mathematical value of a [`PatchKind`].
pub enum PatchKindView {
    JsonMutation,
    TextReplaceList(Seq<EditStepView>),
    TextAppend(Seq<EditStepView>),
    TreeRewrite { extension: Seq<char>, script: Seq<EditStepView> },
    DirectoryRemoval,
}

impl View for PatchKind {
    type V = PatchKindView;

    open spec fn view(&self) -> PatchKindView {
        match self {
            PatchKind::JsonMutation => PatchKindView::JsonMutation,
            PatchKind::TextReplaceList(script) => PatchKindView::TextReplaceList(
                script_view(script@),
            ),
            PatchKind::TextAppend(script) => PatchKindView::TextAppend(script_view(script@)),
            PatchKind::TreeRewrite { extension, script } => PatchKindView::TreeRewrite {
                extension: extension@,
                script: script_view(script@),
            },
            PatchKind::DirectoryRemoval => PatchKindView::DirectoryRemoval,
        }
    }
}

/// A patch rule: a target, given as a path relative to the root of the
/// working tree with `/` between its parts, and the kind of transformation.
#[derive(Debug)]
pub struct PatchRule {
    pub target: String,
    pub kind: PatchKind,
}

/// The mathematical value of a [`PatchRule`].
pub struct PatchRuleView {
    pub target: Seq<char>,
    pub kind: PatchKindView,
}

impl View for PatchRule {
    type V = PatchRuleView;

    open spec fn view(&self) -> PatchRuleView {
        PatchRuleView { target: self.target@, kind: self.kind@ }
    }
}

/// The views of a list of rules, in order.
pub open spec fn rules_view(rules: Seq<PatchRule>) -> Seq<PatchRuleView> {
    Seq::new(rules.len(), |i: int| rules[i]@)
}

/// No two rules have the same target.
pub open spec fn targets_distinct(rules: Seq<PatchRuleView>) -> bool {
    forall|i: int, j: int|
        0 <= i < j < rules.len() ==> (#[trigger] rules[i]).target != (#[trigger] rules[j]).target
}

/// No rule has its target below the target of another.
pub open spec fn targets_apart(rules: Seq<PatchRuleView>) -> bool {
    forall|i: int, j: int|
        0 <= i < rules.len() && 0 <= j < rules.len() && i != j ==> !lies_below(
            (#[trigger] rules[i]).target,
            (#[trigger] rules[j]).target,
        )
}

/// The script of the main-process entry script as a rule has it: the
/// request blocker goes in, then the separator and the mod's code are
/// appended.
pub open spec fn main_js_rule_script() -> Seq<EditStepView> {
    main_js_script().push(EditStepView::Append(MAIN_JS_SEPARATOR@)).push(
        EditStepView::Append(MOD_MAIN_JS@),
    )
}

/// The script of the preload script: the separator and the mod's code are
/// appended.
pub open spec fn preload_js_rule_script() -> Seq<EditStepView> {
    seq![EditStepView::Append(PRELOAD_JS_SEPARATOR@), EditStepView::Append(MOD_PRELOAD_JS@)]
}

/// The rule set applied to the working tree, in the order of application.
pub open spec fn default_rules_spec(auto_devtools: bool) -> Seq<PatchRuleView> {
    seq![
        PatchRuleView { target: "package.json"@, kind: PatchKindView::JsonMutation },
        PatchRuleView {
            target: "main/config.js"@,
            kind: PatchKindView::TextReplaceList(config_js_script()),
        },
        PatchRuleView {
            target: "main/lib/systemMenu.js"@,
            kind: PatchKindView::TextReplaceList(system_menu_script()),
        },
        PatchRuleView {
            target: "main/lib/createWindow.js"@,
            kind: PatchKindView::TextReplaceList(create_window_script(auto_devtools)),
        },
        PatchRuleView {
            target: "main/index.js"@,
            kind: PatchKindView::TextAppend(main_js_rule_script()),
        },
        PatchRuleView {
            target: "main/lib/preload.js"@,
            kind: PatchKindView::TextAppend(preload_js_rule_script()),
        },
        PatchRuleView {
            target: "app/media/splash_screen"@,
            kind: PatchKindView::DirectoryRemoval,
        },
    ]
}

/// The targets of the default rules have lengths that differ from one
/// another, and none has a separator where a shorter one ends.
proof fn lemma_default_targets()
    ensures
        "package.json"@.len() == 12,
        "main/config.js"@.len() == 14,
        "main/lib/systemMenu.js"@.len() == 22,
        "main/lib/createWindow.js"@.len() == 24,
        "main/index.js"@.len() == 13,
        "main/lib/preload.js"@.len() == 19,
        "app/media/splash_screen"@.len() == 23,
        forall|k: int|
            k == 12 || k == 13 || k == 14 || k == 19 || k == 22 || k == 23 ==> {
                &&& (k < 14 ==> "main/config.js"@[k] != '/')
                &&& (k < 22 ==> "main/lib/systemMenu.js"@[k] != '/')
                &&& (k < 24 ==> "main/lib/createWindow.js"@[k] != '/')
                &&& (k < 13 ==> "main/index.js"@[k] != '/')
                &&& (k < 19 ==> "main/lib/preload.js"@[k] != '/')
                &&& (k < 23 ==> "app/media/splash_screen"@[k] != '/')
            },
{
    reveal_strlit("package.json");
    reveal_strlit("main/config.js");
    reveal_strlit("main/lib/systemMenu.js");
    reveal_strlit("main/lib/createWindow.js");
    reveal_strlit("main/index.js");
    reveal_strlit("main/lib/preload.js");
    reveal_strlit("app/media/splash_screen");
}

/// The rule set applied to the working tree, in the order of application.
/// With `auto_devtools` the window-creation script also opens the developer
/// tools.
pub fn default_rules(auto_devtools: bool) -> (r: Vec<PatchRule>)
    ensures
        r@.len() == 7,
        rules_view(r@) == default_rules_spec(auto_devtools),
        targets_distinct(rules_view(r@)),
        targets_apart(rules_view(r@)),
{
    let mut main_script = main_js_steps();
    main_script.push(EditStep::Append(MAIN_JS_SEPARATOR.to_owned()));
    main_script.push(EditStep::Append(MOD_MAIN_JS.to_owned()));
    proof {
        assert(script_view(main_script@) =~= main_js_rule_script());
    }
    let mut preload_script: Vec<EditStep> = Vec::new();
    preload_script.push(EditStep::Append(PRELOAD_JS_SEPARATOR.to_owned()));
    preload_script.push(EditStep::Append(MOD_PRELOAD_JS.to_owned()));
    proof {
        assert(script_view(preload_script@) =~= preload_js_rule_script());
    }
    let mut rules: Vec<PatchRule> = Vec::new();
    rules.push(PatchRule { target: "package.json".to_owned(), kind: PatchKind::JsonMutation });
    rules.push(
        PatchRule {
            target: "main/config.js".to_owned(),
            kind: PatchKind::TextReplaceList(config_js_steps()),
        },
    );
    rules.push(
        PatchRule {
            target: "main/lib/systemMenu.js".to_owned(),
            kind: PatchKind::TextReplaceList(system_menu_steps()),
        },
    );
    rules.push(
        PatchRule {
            target: "main/lib/createWindow.js".to_owned(),
            kind: PatchKind::TextReplaceList(create_window_steps(auto_devtools)),
        },
    );
    rules.push(
        PatchRule { target: "main/index.js".to_owned(), kind: PatchKind::TextAppend(main_script) },
    );
    rules.push(
        PatchRule {
            target: "main/lib/preload.js".to_owned(),
            kind: PatchKind::TextAppend(preload_script),
        },
    );
    rules.push(
        PatchRule {
            target: "app/media/splash_screen".to_owned(),
            kind: PatchKind::DirectoryRemoval,
        },
    );
    proof {
        let all = rules_view(rules@);
        assert(all =~= default_rules_spec(auto_devtools));
        lemma_default_targets();
        assert forall|i: int, j: int|
            0 <= i < all.len() && 0 <= j < all.len() && i != j implies !lies_below(
            (#[trigger] all[i]).target,
            (#[trigger] all[j]).target,
        ) by {
            if lies_below(all[i].target, all[j].target) {
                lemma_separator_behind(all[i].target, all[j].target);
            }
        }
    }
    rules
}

/// The rule of the tree rewrite: every markup document below the
/// application's asset root gets the references to the mod's files.
pub open spec fn html_rule_spec() -> PatchRuleView {
    PatchRuleView {
        target: "app"@,
        kind: PatchKindView::TreeRewrite { extension: "html"@, script: html_script() },
    }
}

/// The rule of the tree rewrite.
pub fn html_rule() -> (r: PatchRule)
    ensures
        r@ == html_rule_spec(),
{
    PatchRule {
        target: "app".to_owned(),
        kind: PatchKind::TreeRewrite { extension: "html".to_owned(), script: html_steps() },
    }
}

/// A file that the mod adds to the working tree.
#[derive(Debug)]
pub struct ModAsset {
    /// The file's path relative to the root of the working tree.
    pub path: String,
    /// What the file holds.
    pub content: String,
}

/// The directory of the mod's own files, relative to the root of the
/// working tree.
pub const MOD_ASSETS_DIR: &'static str = "app/yandexMusicMod";

/// The files that the mod adds to the working tree: the renderer script
/// and the renderer stylesheet, both in the mod's directory.
pub fn mod_assets() -> (r: Vec<ModAsset>)
    ensures
        r@.len() == 2,
        r@[0].path@ == MOD_ASSETS_DIR@ + "/renderer.js"@,
        r@[0].content@ == MOD_RENDERER_JS@,
        r@[1].path@ == MOD_ASSETS_DIR@ + "/renderer.css"@,
        r@[1].content@ == MOD_RENDERER_CSS@,
{
    let mut assets: Vec<ModAsset> = Vec::new();
    assets.push(
        ModAsset {
            path: MOD_ASSETS_DIR.to_owned().concat("/renderer.js"),
            content: MOD_RENDERER_JS.to_owned(),
        },
    );
    assets.push(
        ModAsset {
            path: MOD_ASSETS_DIR.to_owned().concat("/renderer.css"),
            content: MOD_RENDERER_CSS.to_owned(),
        },
    );
    assets
}

/// What the caller found at a rule's target.
#[derive(Debug)]
pub enum Found {
    /// Nothing stands there.
    Missing,
    /// A file with this text.
    Text(String),
    /// A directory.
    Directory,
}

/// The mathematical value of a [`Found`].
pub enum FoundView {
    Missing,
    Text(Seq<char>),
    Directory,
}

impl View for Found {
    type V = FoundView;

    open spec fn view(&self) -> FoundView {
        match self {
            Found::Missing => FoundView::Missing,
            Found::Text(text) => FoundView::Text(text@),
            Found::Directory => FoundView::Directory,
        }
    }
}

/// What the caller is to do at a rule's target.
#[derive(Debug)]
pub enum PatchAction {
    /// Leave the tree as it is.
    Nothing,
    /// Write this text over the target.
    WriteText(String),
    /// Remove the target directory with all it holds.
    RemoveDirectory,
    /// Walk the target directory and rewrite the files that the rule
    /// selects.
    RewriteTree,
}

/// The mathematical value of a [`PatchAction`].
pub enum ActionView {
    Nothing,
    WriteText(Seq<char>),
    RemoveDirectory,
    RewriteTree,
}

impl View for PatchAction {
    type V = ActionView;

    open spec fn view(&self) -> ActionView {
        match self {
            PatchAction::Nothing => ActionView::Nothing,
            PatchAction::WriteText(text) => ActionView::WriteText(text@),
            PatchAction::RemoveDirectory => ActionView::RemoveDirectory,
            PatchAction::RewriteTree => ActionView::RewriteTree,
        }
    }
}

/// The result of one rule.
#[derive(Debug)]
pub enum PatchOutcome {
    /// The rule applied to its target.
    Applied,
    /// The target is absent and the rule can do without it.
    SkippedMissing,
    /// The rule could not be applied; this is fatal to the run.
    Failed(String),
}

/// A [`PatchOutcome`] without the reason of a failure.
#[derive(Clone, Copy, Debug, PartialEq, Eq, Structural)]
pub enum OutcomeKind {
    Applied,
    SkippedMissing,
    Failed,
}

impl PatchOutcome {
    /// The outcome without the reason of a failure.
    pub open spec fn kind_spec(self) -> OutcomeKind {
        match self {
            PatchOutcome::Applied => OutcomeKind::Applied,
            PatchOutcome::SkippedMissing => OutcomeKind::SkippedMissing,
            PatchOutcome::Failed(_) => OutcomeKind::Failed,
        }
    }

    /// The outcome without the reason of a failure.
    pub fn kind(&self) -> (r: OutcomeKind)
        ensures
            r == self.kind_spec(),
    {
        match self {
            PatchOutcome::Applied => OutcomeKind::Applied,
            PatchOutcome::SkippedMissing => OutcomeKind::SkippedMissing,
            PatchOutcome::Failed(_) => OutcomeKind::Failed,
        }
    }
}

/// The outcome of a rule and the action that goes with it.
#[derive(Debug)]
pub struct RuleResult {
    pub outcome: PatchOutcome,
    pub action: PatchAction,
}

/// What a script rule makes of its target: an absent target is skipped, a
/// file is rewritten, and a directory in place of the file is a failure.
pub open spec fn script_rule_spec(script: Seq<EditStepView>, found: FoundView) -> (
    OutcomeKind,
    ActionView,
) {
    match found {
        FoundView::Missing => (OutcomeKind::SkippedMissing, ActionView::Nothing),
        FoundView::Text(text) => (
            OutcomeKind::Applied,
            ActionView::WriteText(run_script(text, script)),
        ),
        FoundView::Directory => (OutcomeKind::Failed, ActionView::Nothing),
    }
}

/// What a rule makes of its target: the kind of outcome, and the action
/// for the caller.
///
/// The package metadata must exist and hold a document that can be mutated;
/// otherwise the rule fails. A script rule skips an absent target. A tree
/// rewrite skips an absent target, hands a directory to the caller to walk,
/// and treats a single file as a tree of one file. A directory removal
/// skips an absent target and fails on a file.
pub open spec fn apply_rule_spec(rule: PatchRuleView, found: FoundView) -> (
    OutcomeKind,
    ActionView,
) {
    match rule.kind {
        PatchKindView::JsonMutation => match found {
            FoundView::Text(text) => match package_json_spec(text) {
                Some(patched) => (OutcomeKind::Applied, ActionView::WriteText(patched)),
                None => (OutcomeKind::Failed, ActionView::Nothing),
            },
            _ => (OutcomeKind::Failed, ActionView::Nothing),
        },
        PatchKindView::TextReplaceList(script) => script_rule_spec(script, found),
        PatchKindView::TextAppend(script) => script_rule_spec(script, found),
        PatchKindView::TreeRewrite { extension, script } => match found {
            FoundView::Missing => (OutcomeKind::SkippedMissing, ActionView::Nothing),
            FoundView::Directory => (OutcomeKind::Applied, ActionView::RewriteTree),
            FoundView::Text(text) => if has_extension_spec(rule.target, extension) {
                (OutcomeKind::Applied, ActionView::WriteText(run_script(text, script)))
            } else {
                (OutcomeKind::Applied, ActionView::Nothing)
            },
        },
        PatchKindView::DirectoryRemoval => match found {
            FoundView::Missing => (OutcomeKind::SkippedMissing, ActionView::Nothing),
            FoundView::Directory => (OutcomeKind::Applied, ActionView::RemoveDirectory),
            FoundView::Text(_) => (OutcomeKind::Failed, ActionView::Nothing),
        },
    }
}

/// The reason of a failure, where the library words it itself. Where the
/// package metadata is no JSON document, the reason is what the JSON reader
/// reports, and no reason is given here.
pub open spec fn failure_reason_spec(rule: PatchRuleView, found: FoundView) -> Option<Seq<char>> {
    match rule.kind {
        PatchKindView::JsonMutation => match found {
            FoundView::Missing => Some("the required file is missing"@),
            FoundView::Directory => Some("the target is a directory, not a file"@),
            FoundView::Text(text) => if not_an_object(text) {
                Some("package metadata is not a JSON object"@)
            } else {
                None
            },
        },
        PatchKindView::TextReplaceList(_) => Some("the target is a directory, not a file"@),
        PatchKindView::TextAppend(_) => Some("the target is a directory, not a file"@),
        PatchKindView::TreeRewrite { .. } => None,
        PatchKindView::DirectoryRemoval => Some("the target is a file, not a directory"@),
    }
}

/// The reason that a failed outcome carries is the one that the library
/// words, where it words one.
pub open spec fn reason_matches(outcome: PatchOutcome, rule: PatchRuleView, found: FoundView) -> bool {
    match outcome {
        PatchOutcome::Failed(reason) => match failure_reason_spec(rule, found) {
            Some(text) => reason@ == text,
            None => true,
        },
        _ => true,
    }
}

/// Applies a script rule to what was found at its target.
fn apply_script_rule(script: &Vec<EditStep>, found: &Found) -> (r: RuleResult)
    ensures
        (r.outcome.kind_spec(), r.action@) == script_rule_spec(script_view(script@), found@),
        r.outcome is Failed ==> r.outcome->Failed_0@ == "the target is a directory, not a file"@,
{
    match found {
        Found::Missing => RuleResult {
            outcome: PatchOutcome::SkippedMissing,
            action: PatchAction::Nothing,
        },
        Found::Text(text) => RuleResult {
            outcome: PatchOutcome::Applied,
            action: PatchAction::WriteText(apply_script(text.as_str(), script)),
        },
        Found::Directory => RuleResult {
            outcome: PatchOutcome::Failed("the target is a directory, not a file".to_owned()),
            action: PatchAction::Nothing,
        },
    }
}

/// Applies a rule to what was found at its target.
pub fn apply_rule(rule: &PatchRule, found: &Found) -> (r: RuleResult)
    ensures
        (r.outcome.kind_spec(), r.action@) == apply_rule_spec(rule@, found@),
        reason_matches(r.outcome, rule@, found@),
{
    match &rule.kind {
        PatchKind::JsonMutation => match found {
            Found::Text(text) => match patch_package_json(text.as_str()) {
                Ok(patched) => RuleResult {
                    outcome: PatchOutcome::Applied,
                    action: PatchAction::WriteText(patched),
                },
                Err(e) => RuleResult {
                    outcome: PatchOutcome::Failed(e.detail()),
                    action: PatchAction::Nothing,
                },
            },
            Found::Missing => RuleResult {
                outcome: PatchOutcome::Failed("the required file is missing".to_owned()),
                action: PatchAction::Nothing,
            },
            Found::Directory => RuleResult {
                outcome: PatchOutcome::Failed("the target is a directory, not a file".to_owned()),
                action: PatchAction::Nothing,
            },
        },
        PatchKind::TextReplaceList(script) => apply_script_rule(script, found),
        PatchKind::TextAppend(script) => apply_script_rule(script, found),
        PatchKind::TreeRewrite { extension, script } => match found {
            Found::Missing => RuleResult {
                outcome: PatchOutcome::SkippedMissing,
                action: PatchAction::Nothing,
            },
            Found::Directory => RuleResult {
                outcome: PatchOutcome::Applied,
                action: PatchAction::RewriteTree,
            },
            Found::Text(text) => {
                if has_extension(rule.target.as_str(), extension.as_str()) {
                    RuleResult {
                        outcome: PatchOutcome::Applied,
                        action: PatchAction::WriteText(apply_script(text.as_str(), script)),
                    }
                } else {
                    RuleResult { outcome: PatchOutcome::Applied, action: PatchAction::Nothing }
                }
            },
        },
        PatchKind::DirectoryRemoval => match found {
            Found::Missing => RuleResult {
                outcome: PatchOutcome::SkippedMissing,
                action: PatchAction::Nothing,
            },
            Found::Directory => RuleResult {
                outcome: PatchOutcome::Applied,
                action: PatchAction::RemoveDirectory,
            },
            Found::Text(_) => RuleResult {
                outcome: PatchOutcome::Failed("the target is a file, not a directory".to_owned()),
                action: PatchAction::Nothing,
            },
        },
    }
}

/// What a tree rewrite makes of one file below its target: the rewritten
/// text where the rule selects the file, nothing where it does not or
/// where the rule is no tree rewrite.
pub open spec fn rewrite_file_spec(rule: PatchRuleView, path: Seq<char>, content: Seq<char>) -> Option<
    Seq<char>,
> {
    match rule.kind {
        PatchKindView::TreeRewrite { extension, script } => if has_extension_spec(path, extension) {
            Some(run_script(content, script))
        } else {
            None
        },
        _ => None,
    }
}

/// Whether a tree rewrite selects the file at `path`.
pub fn selects(rule: &PatchRule, path: &str) -> (r: bool)
    ensures
        r == match rule@.kind {
            PatchKindView::TreeRewrite { extension, script } => has_extension_spec(path@, extension),
            _ => false,
        },
{
    match &rule.kind {
        PatchKind::TreeRewrite { extension, script } => has_extension(path, extension.as_str()),
        _ => false,
    }
}

/// Rewrites one file below the target of a tree rewrite, where the rule
/// selects it.
pub fn rewrite_file(rule: &PatchRule, path: &str, content: &str) -> (r: Option<String>)
    ensures
        match r {
            Some(text) => rewrite_file_spec(rule@, path@, content@) == Some(text@),
            None => rewrite_file_spec(rule@, path@, content@).is_none(),
        },
{
    match &rule.kind {
        PatchKind::TreeRewrite { extension, script } => {
            if has_extension(path, extension.as_str()) {
                Some(apply_script(content, script))
            } else {
                None
            }
        },
        _ => None,
    }
}

/// A replacement rule run a second time writes what the first run wrote,
/// whenever every step of its script is a replacement that finds nothing
/// left to do in that text.
pub proof fn lemma_replace_rule_rerun(rule: PatchRuleView, text: Seq<char>)
    requires
        rule.kind is TextReplaceList,
        forall|i: int|
            0 <= i < rule.kind->TextReplaceList_0.len() ==> step_settled(
                run_script(text, rule.kind->TextReplaceList_0),
                #[trigger] rule.kind->TextReplaceList_0[i],
            ),
    ensures
        apply_rule_spec(rule, FoundView::Text(text)).1 == ActionView::WriteText(
            run_script(text, rule.kind->TextReplaceList_0),
        ),
        apply_rule_spec(rule, FoundView::Text(run_script(text, rule.kind->TextReplaceList_0)))
            == apply_rule_spec(rule, FoundView::Text(text)),
{
    lemma_replace_list_idempotent(text, rule.kind->TextReplaceList_0);
}

/// An append rule run a second time appends its block once more: where
/// the script is one append of a block that is not empty, the second run
/// writes a longer text than the first.
pub proof fn lemma_append_rule_rerun(rule: PatchRuleView, text: Seq<char>, block: Seq<char>)
    requires
        rule.kind == PatchKindView::TextAppend(seq![EditStepView::Append(block)]),
        block.len() > 0,
    ensures
        apply_rule_spec(rule, FoundView::Text(text)).1 == ActionView::WriteText(text + block),
        apply_rule_spec(rule, FoundView::Text(text + block)).1 == ActionView::WriteText(
            text + block + block,
        ),
        text + block + block != text + block,
{
    let script = seq![EditStepView::Append(block)];
    assert(script.drop_last() =~= Seq::<EditStepView>::empty());
    assert(run_script(text, script) == run_step(run_script(text, script.drop_last()), script.last()));
    assert(run_script(text + block, script) == run_step(
        run_script(text + block, script.drop_last()),
        script.last(),
    ));
    assert((text + block + block).len() == (text + block).len() + block.len());
}

/// A directory removal whose target does not exist succeeds without doing
/// anything: the rule is skipped and the tree is left as it is.
pub proof fn lemma_removal_of_missing_directory(rule: PatchRuleView)
    requires
        rule.kind is DirectoryRemoval,
    ensures
        apply_rule_spec(rule, FoundView::Missing) == (
            OutcomeKind::SkippedMissing,
            ActionView::Nothing,
        ),
{
}

/// Only the package metadata is required: a rule of any other kind skips
/// an absent target, and the mutation fails on one.
pub proof fn lemma_missing_target_policy(rule: PatchRuleView)
    ensures
        apply_rule_spec(rule, FoundView::Missing).0 == if rule.kind is JsonMutation {
            OutcomeKind::Failed
        } else {
            OutcomeKind::SkippedMissing
        },
        apply_rule_spec(rule, FoundView::Missing).1 == ActionView::Nothing,
{
}

/// A rule that fails leaves the tree as it is.
pub proof fn lemma_failure_changes_nothing(rule: PatchRuleView, found: FoundView)
    requires
        apply_rule_spec(rule, found).0 == OutcomeKind::Failed,
    ensures
        apply_rule_spec(rule, found).1 == ActionView::Nothing,
{
}

} // verus!
