use oecli::command::{command_result, CommandOutcome};
use oecli::log::LogLevel;
use oecli::step::event::{EventData, NewSequenceEvent, StepEvent};
use oecli::step::msg_handler::console::{end_line, error_line, skipped_line, start_line};
use oecli::step::msg_handler::{ConsoleLogEventHandler, EventHandler, ProgressBarsEventHandler};
use oecli::step::{
    ExecutorProperties, ShouldRunResult, Step, StepDetails, StepId, StepItem, StepProcessError,
    StepSequence,
};
use oecli::subcommands::age::Age;
use oecli::subcommands::cloud_home::add::Add;
use oecli::subcommands::cloud_home::init::CloudHomeInit;
use oecli::subcommands::filesystem::{CopyFile, CreateFile};
use oecli::subcommands::github::{user_from_auth_status, CloneRepo, CreateTemplateRepo};
use oecli::subcommands::node::NPMInstall;
use oecli::subcommands::precommit::{PreCommit, PreCommitCommand};
use oecli::subcommands::pwa::create::PwaCreate;
use oecli::subcommands::{skip_when_present, WorkItem};

fn exited(success: bool, stderr: &str) -> CommandOutcome {
    CommandOutcome::Exited { success, stderr: stderr.to_string() }
}

fn error_message(r: ShouldRunResult) -> String {
    match r {
        ShouldRunResult::Error(e) => e.to_string(),
        _ => panic!("expected an error"),
    }
}

fn details(title: &str, description: &str) -> StepDetails {
    StepDetails { title: title.to_string(), description: description.to_string() }
}

#[test]
fn command_result_words_each_outcome() {
    assert_eq!(command_result("touch x", &exited(true, "")), Ok("Completed running `touch x`.".to_string()));
    assert_eq!(
        command_result("touch x", &exited(false, "denied")),
        Err("Error running `touch x`. stderr: denied".to_string())
    );
    assert_eq!(
        command_result("touch x", &CommandOutcome::FailedToStart("not found".to_string())),
        Err("Failed to run `touch x`. Error: not found".to_string())
    );
}

#[test]
fn presence_decides_skip() {
    assert!(matches!(skip_when_present(true), ShouldRunResult::Skip));
    assert!(matches!(skip_when_present(false), ShouldRunResult::Run));
}

#[test]
fn age_paths_and_texts() {
    let age = Age::new("cloud");
    assert_eq!(age.key_path(), "/home/oe/.config/sops/age/cloud.txt");
    assert_eq!(age.success_message(), "Age key generated and moved to ~/.config/sops/age/cloud.txt");
    assert_eq!(age.title(), "Set up age key for repo.");
    assert_eq!(age.description(), "Sets up the age key and installs it to the home directory.");
}

#[test]
fn file_items_texts() {
    let create = CreateFile::new("a/b.toml");
    assert_eq!(create.title(), "Creating File a/b.toml");
    assert_eq!(create.command_name(), "touch a/b.toml");
    let copy = CopyFile::new("x.env", "y.env");
    assert_eq!(copy.title(), "Copying File x.env to y.env");
    assert_eq!(copy.description(), "Copies the source file x.env and creates the copy at y.env.");
    assert_eq!(copy.command_name(), "cp x.env y.env");
}

#[test]
fn clone_repo_texts() {
    let clone = CloneRepo::new("site");
    assert_eq!(clone.title(), "Cloning repo site");
    assert_eq!(clone.full_repo("octocat"), "octocat/site");
    assert_eq!(clone.clone_result(&exited(true, "")), Ok("Repo site cloned.".to_string()));
    assert_eq!(
        clone.clone_result(&exited(false, "exists")),
        Err("Failed to clone repo site.\nexists".to_string())
    );
}

#[test]
fn template_repo_check_after_auth_status() {
    let t = CreateTemplateRepo::new("site", "owner/template", false);
    assert!(t.after_auth_status(&exited(true, "")).is_none());
    assert_eq!(
        error_message(t.after_auth_status(&exited(false, "")).unwrap()),
        "GitHub CLI authentication failed. Make sure you are logged in."
    );
    assert_eq!(
        error_message(t.after_auth_status(&CommandOutcome::FailedToStart("no gh".to_string())).unwrap()),
        "Github CLI had an unexpected failure.\nno gh"
    );
}

#[test]
fn template_repo_check_after_repo_view() {
    let t = CreateTemplateRepo::new("site", "owner/template", true);
    assert!(matches!(t.after_repo_view(&exited(true, "")), ShouldRunResult::Skip));
    assert!(matches!(t.after_repo_view(&exited(false, "")), ShouldRunResult::Run));
    let missing = "GraphQL: Could not resolve to a Repository with the name 'owner/template/site'. (repository)";
    assert!(matches!(
        t.after_repo_view(&CommandOutcome::FailedToStart(missing.to_string())),
        ShouldRunResult::Run
    ));
    assert_eq!(
        error_message(t.after_repo_view(&CommandOutcome::FailedToStart("timeout".to_string()))),
        "Failed to check if repo site exists.\ntimeout"
    );
}

#[test]
fn template_repo_creation_texts() {
    let public = CreateTemplateRepo::new("site", "owner/template", true);
    let private = CreateTemplateRepo::new("site", "owner/template", false);
    assert_eq!(public.visibility(), "--public");
    assert_eq!(private.visibility(), "--private");
    assert_eq!(public.title(), "Creating template from owner/template");
    assert_eq!(public.create_result(&exited(true, "")), Ok("Created Github repository site".to_string()));
    assert_eq!(
        public.create_result(&CommandOutcome::FailedToStart("oops".to_string())),
        Err("Failed to create repo site.\noops".to_string())
    );
}

#[test]
fn precommit_texts() {
    assert_eq!(PreCommitCommand::Init.precommit_subcommand(), "precommit:init");
    assert_eq!(PreCommitCommand::Update.precommit_subcommand(), "precommit:update");
    let p = PreCommit::new(PreCommitCommand::Update, "repo");
    assert_eq!(p.title(), "Running task precommit:update");
    assert_eq!(p.description(), "Runs the pre-commit precommit:update command");
    assert!(matches!(p.should_run(), ShouldRunResult::Run));
    assert_eq!(p.task_result(&exited(true, "")), Ok("Running `task precommit:update`".to_string()));
    assert_eq!(
        p.task_result(&exited(false, "hook failed")),
        Err("Error Running `task precommit:update` Msg: hook failed".to_string())
    );
    assert_eq!(
        p.task_result(&CommandOutcome::FailedToStart("no task".to_string())),
        Err("Running `task precommit:update` Msg: no task".to_string())
    );
}

#[test]
fn age_setup_stops_at_first_failure() {
    let age = Age::new("cloud");
    assert_eq!(age.after_command(0, Ok("a".to_string())), None);
    assert_eq!(age.after_command(1, Ok("b".to_string())), None);
    assert_eq!(
        age.after_command(2, Ok("c".to_string())),
        Some(Ok("Age key generated and moved to ~/.config/sops/age/cloud.txt".to_string()))
    );
    assert_eq!(age.after_command(0, Err("no keygen".to_string())), Some(Err("no keygen".to_string())));
    assert_eq!(age.after_command(2, Err("mv failed".to_string())), Some(Err("mv failed".to_string())));
}

#[test]
fn npm_install_and_add() {
    let n = NPMInstall::new("app");
    assert!(matches!(n.should_run(), ShouldRunResult::Run));
    assert_eq!(n.title(), "Running npm install");
    assert_eq!(Add { ip: "10.0.0.2".to_string() }.process(), Ok(()));
}

#[test]
fn user_is_read_from_auth_status() {
    let out = "github.com\n  ✓ Logged in to github.com as octocat (/home/oe/.config/gh/hosts.yml)\n";
    assert_eq!(user_from_auth_status(out), Some("octocat".to_string()));
    assert_eq!(user_from_auth_status("You are not logged into any GitHub hosts."), None);
}

#[test]
fn random_ids_are_version_four() {
    let a = StepId::new_random();
    let b = StepId::new_random();
    assert_eq!(a.id & 0xF000_C000_0000_0000_0000, 0x4000_8000_0000_0000_0000);
    assert_ne!(a, b);
    let s: StepSequence<()> = StepSequence::new("t", "d");
    assert_eq!(s.get_id(), s.step_id);
}

#[test]
fn console_lines_by_level() {
    let step = details("Build", "Compiles");
    let data = EventData::new("ok", "main");
    assert_eq!(start_line(LogLevel::Verbose, &step, &data), Some("Build\nCompiles\nok".to_string()));
    assert_eq!(start_line(LogLevel::Info, &step, &data), Some("Begin: Build\nCompiles".to_string()));
    assert_eq!(start_line(LogLevel::Warning, &step, &data), None);
    assert_eq!(end_line(LogLevel::Verbose, &step, &data), Some("Build Completed\nok".to_string()));
    assert_eq!(end_line(LogLevel::Info, &step, &data), Some("End: Build".to_string()));
    assert_eq!(skipped_line(LogLevel::Verbose, &step, &data), Some("Build: ok".to_string()));
    assert_eq!(skipped_line(LogLevel::Info, &step, &data), Some("progress: Build: ok".to_string()));
    assert_eq!(error_line(LogLevel::Error, &step, &data), Some("Error: Build\nok".to_string()));
    assert_eq!(error_line(LogLevel::Silent, &step, &data), None);
}

#[test]
fn console_handler_collects_lines() {
    let mut h = ConsoleLogEventHandler::new(LogLevel::Info);
    h.handle_event(None, StepEvent::NewSequence(NewSequenceEvent::new(2, "main")));
    h.handle_event(Some(details("A", "first")), StepEvent::Start(EventData::new("", "main")));
    h.handle_event(Some(details("A", "first")), StepEvent::End(EventData::new("done", "main")));
    assert_eq!(h.take_lines(), vec!["Begin: A\nfirst".to_string(), "End: A".to_string()]);
    assert!(h.take_lines().is_empty());
    let mut silent = ConsoleLogEventHandler::new(LogLevel::Silent);
    silent.handle_event(Some(details("A", "")), StepEvent::Error(EventData::new("x", "main")));
    assert!(silent.take_lines().is_empty());
}

#[test]
fn progress_bars_follow_sequences() {
    let mut h = ProgressBarsEventHandler::new(LogLevel::Info);
    h.handle_event(None, StepEvent::NewSequence(NewSequenceEvent::new(3, "S")));
    h.handle_event(None, StepEvent::NewSequence(NewSequenceEvent::new(9, "S")));
    assert_eq!(h.progress_bars.len(), 1);
    assert_eq!(h.progress_bars[0].length, 3);
    h.handle_event(Some(details("a", "")), StepEvent::Start(EventData::new("", "S")));
    assert_eq!(h.progress_bars[0].message, "a");
    assert_eq!(h.progress_bars[0].position, 0);
    h.handle_event(Some(details("a", "")), StepEvent::End(EventData::new("ok", "S")));
    h.handle_event(Some(details("b", "")), StepEvent::Skip(EventData::new("Skipped. Already completed.", "S")));
    assert_eq!(h.progress_bars[0].message, "b: Skipped. Already completed. 1");
    assert_eq!(h.progress_bars[0].position, 2);
    h.handle_event(Some(details("c", "")), StepEvent::Error(EventData::new("bad", "S")));
    assert_eq!(h.progress_bars[0].position, 2);
    assert!(!h.progress_bars[0].finished);
    h.handle_event(None, StepEvent::EndSequence(EventData::new("S", "S")));
    assert!(h.progress_bars[0].finished);
    h.handle_event(Some(details("d", "")), StepEvent::End(EventData::new("ok", "other")));
    assert_eq!(h.progress_bars.len(), 1);
}

#[test]
fn silent_progress_keeps_no_bar() {
    let mut h = ProgressBarsEventHandler::new(LogLevel::Silent);
    h.handle_event(None, StepEvent::NewSequence(NewSequenceEvent::new(3, "S")));
    assert!(h.progress_bars.is_empty());
}

#[test]
fn sequence_builders_and_cursor() {
    let s: StepSequence<u8> = StepSequence::new("S", "about S")
        .set_steps(vec![Step::Step(1)])
        .then_run(Step::Step(2))
        .then_run_parallel(vec![Step::Step(3), Step::Step(4)]);
    assert_eq!(s.title, "S");
    assert_eq!(s.description, "about S");
    assert_eq!(s.num_steps(), 4);
    assert!(s.has_next());
    let mut s = s;
    assert_eq!(s.get_next().len(), 1);
    assert_eq!(s.num_steps(), 3);
    assert_eq!(s.get_next().len(), 1);
    assert_eq!(s.get_next().len(), 2);
    assert!(!s.has_next());
    assert_eq!(s.num_steps(), 0);
}

#[test]
fn every_composition_appends_a_batch() {
    let p: ExecutorProperties<u8> = ExecutorProperties::new()
        .then_run(Step::Step(9))
        .run_parallel(vec![Step::Step(1), Step::Step(2)])
        .run(Step::Step(3))
        .then_run_parallel(vec![Step::Step(4), Step::Step(5), Step::Step(6)]);
    let steps = p.get_steps();
    let widths: Vec<usize> = steps.iter().map(|b| b.len()).collect();
    assert_eq!(widths, vec![1, 2, 1, 3]);
    assert!(matches!(steps[0][0], Step::Step(9)));
    assert!(matches!(steps[2][0], Step::Step(3)));
}

#[test]
fn events_and_errors_carry_their_text() {
    let e = StepProcessError::new("broken");
    assert_eq!(e.message, "broken");
    assert_eq!(e.to_string(), "broken");
    let n = NewSequenceEvent::new(7, "seq");
    assert_eq!((n.length, n.sequence_name.as_str()), (7, "seq"));
    let d = EventData::new("m", "seq");
    assert_eq!((d.msg.as_str(), d.sequence_name.as_str()), ("m", "seq"));
}

fn titles(batch: &[Step<WorkItem>]) -> Vec<String> {
    batch
        .iter()
        .map(|s| match s {
            Step::Step(w) => w.title(),
            Step::Sequence(q) => format!("seq {}", q.title),
        })
        .collect()
}

#[test]
fn cloud_home_init_plan() {
    let init = CloudHomeInit { name: "home".to_string(), public: None };
    let steps = init.set_properties(ExecutorProperties::new()).get_steps();
    assert_eq!(steps.len(), 1);
    let mut seq = match steps.into_iter().next().unwrap().into_iter().next().unwrap() {
        Step::Sequence(s) => s,
        Step::Step(_) => panic!("expected a sequence"),
    };
    assert_eq!(seq.title, "Set up cloud home repository");
    assert_eq!(seq.num_steps(), 6);
    let first = seq.get_next();
    match &first[0] {
        Step::Step(WorkItem::CreateTemplateRepo(t)) => {
            assert_eq!(t.repo, "k8s-at-home/flux-cluster-template");
            assert!(t.public);
        }
        _ => panic!("expected the template repository first"),
    }
    assert_eq!(titles(&seq.get_next()), vec!["Cloning repo home".to_string()]);
    assert_eq!(
        titles(&seq.get_next()),
        vec![
            "Creating File home/oecloudhome.toml".to_string(),
            "seq Run pre-commit hooks that come with the repository.".to_string(),
            "Copying File home/.config.sample.env to home/.config.env".to_string(),
        ]
    );
    assert_eq!(titles(&seq.get_next()), vec!["Set up age key for repo.".to_string()]);
    assert!(!seq.has_next());
}

#[test]
fn pwa_create_plan() {
    let create = PwaCreate { name: "app".to_string(), public: None };
    let steps = create.set_properties(ExecutorProperties::new()).get_steps();
    let mut seq = match steps.into_iter().next().unwrap().into_iter().next().unwrap() {
        Step::Sequence(s) => s,
        Step::Step(_) => panic!("expected a sequence"),
    };
    match &seq.get_next()[0] {
        Step::Step(WorkItem::CreateTemplateRepo(t)) => {
            assert_eq!(t.repo, "ctron/patternfly-yew-quickstart");
            assert!(!t.public);
            assert_eq!(t.name, "app");
        }
        _ => panic!("expected the template repository first"),
    }
    assert_eq!(titles(&seq.get_next()), vec!["Cloning repo app".to_string()]);
    assert_eq!(titles(&seq.get_next()), vec!["Running npm install".to_string()]);
    assert!(!seq.has_next());
}
