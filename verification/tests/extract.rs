use yandex_music_mod::error::PatcherError;
use yandex_music_mod::extract::{
    arguments, asar_entry_plan, attempt_outcome, default_chain, diagnostic, program, tool_name,
    zip_entry_plan, ArchiveKind, AttemptOutcome, Cause, EntryPlan, Extraction, Failure, Tool,
    Verdict,
};
use yandex_music_mod::search::{
    first_usable, probe_usable, seven_zip_commands, seven_zip_install_paths, seven_zip_places,
};

fn rejected(text: &str) -> AttemptOutcome {
    AttemptOutcome::Rejected(text.to_string())
}

fn unavailable(text: &str) -> AttemptOutcome {
    AttemptOutcome::Unavailable(text.to_string())
}

#[test]
fn chains_go_from_packaged_tool_to_builtin_decoder() {
    assert_eq!(
        default_chain(ArchiveKind::Installer),
        vec![Tool::SevenZip, Tool::P7zip, Tool::ZipDecoder]
    );
    assert_eq!(
        default_chain(ArchiveKind::ResourceArchive),
        vec![Tool::AsarCli, Tool::NpxAsar, Tool::AsarDecoder]
    );
}

#[test]
fn first_success_wins_and_nothing_follows() {
    let mut run = Extraction::new(ArchiveKind::Installer);
    assert_eq!(run.pending(), Some(Tool::SevenZip));
    run.record(unavailable("no such file"));
    assert_eq!(run.pending(), Some(Tool::P7zip));
    run.record(AttemptOutcome::Succeeded);
    assert_eq!(run.pending(), None);
    assert!(matches!(run.verdict(), Verdict::Extracted(Tool::P7zip)));
    assert_eq!(run.failures.len(), 1);
    assert_eq!(run.failures[0].tool, Tool::SevenZip);

    run.record(rejected("late"));
    run.record(AttemptOutcome::Succeeded);
    assert!(matches!(run.verdict(), Verdict::Extracted(Tool::P7zip)));
    assert_eq!(run.failures.len(), 1);
}

#[test]
fn first_candidate_can_win() {
    let mut run = Extraction::new(ArchiveKind::ResourceArchive);
    run.record(AttemptOutcome::Succeeded);
    assert!(matches!(run.verdict(), Verdict::Extracted(Tool::AsarCli)));
    assert!(run.failures.is_empty());
}

#[test]
fn feed_stops_at_the_first_success() {
    let mut run = Extraction::with_chain(
        ArchiveKind::Installer,
        vec![Tool::ZipDecoder, Tool::SevenZip, Tool::P7zip, Tool::AsarDecoder],
    );
    run.feed(&vec![
        rejected("a"),
        unavailable("b"),
        AttemptOutcome::Succeeded,
        rejected("never recorded"),
    ]);
    assert_eq!(run.winner, Some(Tool::P7zip));
    assert_eq!(run.failures.len(), 2);
    assert_eq!(run.failures[0].tool, Tool::ZipDecoder);
    assert_eq!(run.failures[0].cause, Cause::Rejected);
    assert_eq!(run.failures[0].detail, "a");
    assert_eq!(run.failures[1].tool, Tool::SevenZip);
    assert_eq!(run.failures[1].cause, Cause::NotFound);
    assert_eq!(run.pending(), None);
}

#[test]
fn exhausted_installer_chain_names_every_candidate() {
    let mut run = Extraction::new(ArchiveKind::Installer);
    run.feed(&vec![unavailable("not installed"), rejected("exit status 2"), rejected("bad magic")]);
    assert_eq!(run.pending(), None);
    let error = match run.verdict() {
        Verdict::Failed(error) => error,
        other => panic!("unexpected verdict {:?}", other),
    };
    let detail = match &error {
        PatcherError::ExtractionError(detail) => detail.clone(),
        other => panic!("unexpected error {:?}", other),
    };
    assert_eq!(
        detail,
        "every candidate failed to extract the installer:\
         \n  - 7z: tool not found: not installed\
         \n  - p7zip: tool ran and rejected the input: exit status 2\
         \n  - built-in zip decoder: tool ran and rejected the input: bad magic\
         \nPlease install 7z/7zip and ensure it's in PATH.\
         \nOn Windows: Download from https://www.7-zip.org/\
         \nOn Linux: apt install p7zip-full\
         \nOn macOS: brew install p7zip"
    );
    for tool in default_chain(ArchiveKind::Installer) {
        assert!(detail.contains(tool_name(tool)));
    }
    assert!(error.message().starts_with("Failed to extract archive: every candidate"));
}

#[test]
fn exhausted_resource_chain_is_an_asar_error() {
    let mut run = Extraction::new(ArchiveKind::ResourceArchive);
    run.feed(&vec![unavailable("x"), unavailable("y"), rejected("z")]);
    let error = match run.verdict() {
        Verdict::Failed(error) => error,
        other => panic!("unexpected verdict {:?}", other),
    };
    let detail = match &error {
        PatcherError::AsarError(detail) => detail.clone(),
        other => panic!("unexpected error {:?}", other),
    };
    assert_eq!(
        detail,
        "every candidate failed to extract app.asar:\
         \n  - asar: tool not found: x\
         \n  - npx asar: tool not found: y\
         \n  - built-in asar decoder: tool ran and rejected the input: z\
         \nPlease install asar:\nnpm install -g asar\nOr ensure Node.js/npx is in PATH."
    );
    assert!(error.message().starts_with("ASAR extraction failed: "));
}

#[test]
fn empty_chain_fails_at_once() {
    let run = Extraction::with_chain(ArchiveKind::Installer, Vec::new());
    assert_eq!(run.pending(), None);
    assert!(matches!(run.verdict(), Verdict::Failed(PatcherError::ExtractionError(_))));
}

#[test]
fn pending_verdict_while_candidates_are_left() {
    let mut run = Extraction::new(ArchiveKind::Installer);
    assert!(matches!(run.verdict(), Verdict::Pending(Tool::SevenZip)));
    run.record(rejected("no"));
    assert!(matches!(run.verdict(), Verdict::Pending(Tool::P7zip)));
}

#[test]
fn diagnostic_tells_not_found_from_rejected() {
    let failures = vec![
        Failure { tool: Tool::AsarCli, cause: Cause::NotFound, detail: "a".to_string() },
        Failure { tool: Tool::AsarCli, cause: Cause::Rejected, detail: "a".to_string() },
    ];
    let text = diagnostic(ArchiveKind::ResourceArchive, &failures);
    assert!(text.contains("\n  - asar: tool not found: a"));
    assert!(text.contains("\n  - asar: tool ran and rejected the input: a"));
}

#[test]
fn outcome_of_a_started_program_goes_by_its_exit() {
    assert!(matches!(attempt_outcome(true, true, "ignored".to_string()), AttemptOutcome::Succeeded));
    match attempt_outcome(true, false, "stderr".to_string()) {
        AttemptOutcome::Rejected(detail) => assert_eq!(detail, "stderr"),
        other => panic!("unexpected outcome {:?}", other),
    }
    match attempt_outcome(false, true, "os error".to_string()) {
        AttemptOutcome::Unavailable(detail) => assert_eq!(detail, "os error"),
        other => panic!("unexpected outcome {:?}", other),
    }
    assert!(matches!(attempt_outcome(false, false, String::new()), AttemptOutcome::Unavailable(_)));
}

#[test]
fn command_lines_of_the_candidates() {
    assert_eq!(arguments(Tool::SevenZip, "in.exe", "out dir"), vec!["x", "-y", "-oout dir", "in.exe"]);
    assert_eq!(arguments(Tool::P7zip, "in.exe", "out"), vec!["-d", "-k", "in.exe"]);
    assert_eq!(arguments(Tool::AsarCli, "app.asar", "src"), vec!["extract", "app.asar", "src"]);
    assert_eq!(
        arguments(Tool::NpxAsar, "app.asar", "src"),
        vec!["asar", "extract", "app.asar", "src"]
    );
    assert!(arguments(Tool::ZipDecoder, "a", "b").is_empty());
    assert!(arguments(Tool::AsarDecoder, "a", "b").is_empty());
    assert_eq!(program(Tool::P7zip), Some("p7zip"));
    assert_eq!(program(Tool::AsarCli), Some("asar"));
    assert_eq!(program(Tool::NpxAsar), Some("npx"));
    assert_eq!(program(Tool::SevenZip), None);
    assert_eq!(program(Tool::ZipDecoder), None);
    assert_eq!(program(Tool::AsarDecoder), None);
}

#[test]
fn seven_zip_is_searched_in_order() {
    assert_eq!(seven_zip_commands(), vec!["7z", "7zz", "7za"]);
    let paths = seven_zip_install_paths(
        Some("C:\\Users\\me"),
        &vec!["D:\\Programs".to_string(), "E:\\Apps".to_string()],
    );
    assert_eq!(
        paths,
        vec![
            "C:\\Program Files\\7-Zip\\7z.exe",
            "C:\\Program Files (x86)\\7-Zip\\7z.exe",
            "C:\\ProgramData\\chocolatey\\bin\\7z.exe",
            "C:\\Users\\me\\scoop\\apps\\7zip\\current\\7z.exe",
            "C:\\Users\\me\\scoop\\shims\\7z.exe",
            "D:\\Programs\\7-Zip\\7z.exe",
            "E:\\Apps\\7-Zip\\7z.exe",
        ]
    );
    assert_eq!(seven_zip_install_paths(None, &Vec::new()).len(), 3);
}

#[test]
fn probes_and_first_usable() {
    assert!(probe_usable(true, true, false));
    assert!(probe_usable(true, false, true));
    assert!(!probe_usable(true, false, false));
    assert!(!probe_usable(false, true, true));
    assert_eq!(first_usable(&vec![false, true, true]), Some(1));
    assert_eq!(first_usable(&vec![true]), Some(0));
    assert_eq!(first_usable(&vec![false, false]), None);
    assert_eq!(first_usable(&Vec::new()), None);
}

#[test]
fn decoder_entry_plans() {
    assert_eq!(zip_entry_plan(false, false), EntryPlan::Skip);
    assert_eq!(zip_entry_plan(false, true), EntryPlan::Skip);
    assert_eq!(zip_entry_plan(true, true), EntryPlan::CreateDirectory);
    assert_eq!(zip_entry_plan(true, false), EntryPlan::WriteFile);
    assert_eq!(asar_entry_plan(0), EntryPlan::CreateParent);
    assert_eq!(asar_entry_plan(1), EntryPlan::WriteFile);
}

#[test]
fn seven_zip_places_put_names_before_files() {
    let places = seven_zip_places(false, Some("C:\\Users\\me"), &vec!["D:".to_string()]);
    let names: Vec<&str> = places.iter().map(|place| place.path.as_str()).collect();
    assert_eq!(names, vec!["7z", "7zz", "7za"]);
    assert!(places.iter().all(|place| place.by_name));

    let places = seven_zip_places(true, None, &vec!["D:".to_string()]);
    assert_eq!(places.len(), 7);
    assert!(places[..3].iter().all(|place| place.by_name));
    assert!(places[3..].iter().all(|place| !place.by_name));
    assert_eq!(places[3].path, "C:\\Program Files\\7-Zip\\7z.exe");
    assert_eq!(places[6].path, "D:\\7-Zip\\7z.exe");
}
