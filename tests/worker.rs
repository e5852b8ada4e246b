use dicc_client::assignment::{Assignment, AssignmentResult};
use dicc_client::checksum::Checksum;
use dicc_client::coordinator::{
    assemble_projects, assignments_from_response, platforms_from_catalog, AssignmentInfo,
    BinaryInfo, PlatformInfo, ProjectBinary, ProjectInfo, RetrieveTaskOfProjectsResponse,
    TaskInfo,
};
use dicc_client::download::Download;
use dicc_client::platform::{Platform, PlatformManager};
use dicc_client::project::{Project, ProjectPlatform};
use dicc_client::worker::{
    LoopPhase, ProjectWorker, WorkerAction, WorkerError, WorkerEvent, WorkerLoop, WorkerThread,
    IDLE_BACKOFF_SECS,
};

fn platform(id: i64) -> Platform {
    Platform::new(id, &format!("p{}", id), Download::new("u/detector", vec![]))
}

fn project_on(id: i64, name: &str, platform_ids: &[i64], url: &str) -> Project {
    let mut p = Project::new(id, name);
    for pid in platform_ids {
        let binary = Download::new(&format!("{}{}", url, pid), vec![Checksum::new("sha256", "00")]);
        p.add_platform(ProjectPlatform::new(platform(*pid), binary, 0));
    }
    p
}

fn assignment(id: i64, project: Project, input: &str) -> Assignment {
    Assignment::new(id, project, input.to_string())
}

#[test]
fn selection_prefers_caller_order() {
    let p1 = 1;
    let p2 = 2;
    let worker = assignment(7, project_on(42, "demo", &[p1, p2], "u/bin-"), "abc").create_worker();
    let selected = worker.get_platform(&vec![p2, p1]).unwrap();
    assert_eq!(selected.platform.id, p2);
    let selected = worker.get_platform(&vec![p1, p2]).unwrap();
    assert_eq!(selected.platform.id, p1);
}

#[test]
fn selection_skips_platforms_the_project_lacks() {
    let worker = assignment(7, project_on(42, "demo", &[3], "u/bin-"), "abc").create_worker();
    let selected = worker.get_platform(&vec![1, 2, 3]).unwrap();
    assert_eq!(selected.binary.url, "u/bin-3");
}

#[test]
fn selection_without_match_fails() {
    let worker = assignment(7, project_on(42, "demo", &[3], "u/bin-"), "abc").create_worker();
    assert_eq!(worker.get_platform(&vec![1, 2]).err(), Some(WorkerError::PlatformNotFound));
    assert_eq!(worker.get_platform(&vec![]).err(), Some(WorkerError::PlatformNotFound));
}

#[test]
fn selection_ignores_priority() {
    let mut project = Project::new(42, "demo");
    project.add_platform(ProjectPlatform::new(platform(1), Download::new("u/low", vec![]), 1));
    project.add_platform(ProjectPlatform::new(platform(2), Download::new("u/high", vec![]), 99));
    let worker = assignment(7, project, "abc").create_worker();
    assert_eq!(worker.get_platform(&vec![1, 2]).unwrap().binary.url, "u/low");
}

#[test]
fn add_platform_replaces_same_platform() {
    let mut project = Project::new(42, "demo");
    project.add_platform(ProjectPlatform::new(platform(1), Download::new("u/a", vec![]), 1));
    project.add_platform(ProjectPlatform::new(platform(1), Download::new("u/b", vec![]), 2));
    assert_eq!(project.platforms.len(), 1);
    assert_eq!(project.platforms.get(&1).unwrap().binary.url, "u/b");
    assert_eq!(project.duplicate().platforms.get(&1).unwrap().priority, 2);
}

#[test]
fn binary_goes_under_project_bin_dir() {
    let worker = assignment(7, project_on(42, "demo", &[1], "https://cdn.example.org/solver-v"), "abc").create_worker();
    let p = worker.get_platform(&vec![1]).unwrap();
    let plan = worker.prepare_binary(p);
    assert_eq!(plan.dir, "projects/demo/bin");
    assert_eq!(plan.path, "projects/demo/bin/solver-v1");
    assert_eq!(plan.command.program, "projects/demo/bin/solver-v1");
    assert!(plan.command.args.is_empty());
}

#[test]
fn jar_binary_runs_through_java() {
    let mut project = Project::new(42, "demo");
    project.add_platform(ProjectPlatform::new(platform(1), Download::new("https://cdn.example.org/app.jar", vec![]), 0));
    let worker = assignment(7, project, "abc").create_worker();
    let p = worker.get_platform(&vec![1]).unwrap();
    let plan = worker.prepare_binary(p);
    assert_eq!(plan.path, "projects/demo/bin/app.jar");
    assert_eq!(plan.command.program, "java");
    assert_eq!(plan.command.args, vec!["-jar".to_string(), "projects/demo/bin/app.jar".to_string()]);
}

#[test]
fn input_goes_under_project_inputs_dir() {
    let worker = assignment(7, Project::new(42, "demo"), "abc").create_worker();
    let plan = worker.prepare_input();
    assert_eq!(plan.dir, "projects/demo/inputs");
    assert_eq!(plan.path, "projects/demo/inputs/7.bin");
    assert_eq!(plan.data, "abc");
}

#[test]
fn execution_command_adds_input_argument() {
    let d = Download::new("https://cdn.example.org/app.jar", vec![]);
    let c = ProjectWorker::execution_command(d.get_command("projects/demo/bin/app.jar"), "/abs/projects/demo/inputs/7.bin");
    assert_eq!(c.program, "java");
    assert_eq!(
        c.args,
        vec![
            "-jar".to_string(),
            "projects/demo/bin/app.jar".to_string(),
            "--input".to_string(),
            "/abs/projects/demo/inputs/7.bin".to_string()
        ]
    );
}

#[test]
fn zero_exit_yields_result() {
    let worker = assignment(7, Project::new(42, "demo"), "abc").create_worker();
    let r = worker.finish(Some(0), "abc".to_string(), "".to_string(), 12345).unwrap();
    assert_eq!(r.id, 7);
    assert_eq!(r.output, "abc");
    assert_eq!(r.error, "");
    assert_eq!(r.status, 0);
    assert_eq!(r.execution_time, 12345);
}

#[test]
fn nonzero_or_missing_exit_fails() {
    let worker = assignment(7, Project::new(42, "demo"), "abc").create_worker();
    assert_eq!(worker.finish(Some(2), "o".to_string(), "e".to_string(), 1).err(), Some(WorkerError::ExecutionFailed));
    assert_eq!(worker.finish(None, "o".to_string(), "e".to_string(), 1).err(), Some(WorkerError::ExecutionFailed));
}

#[test]
fn create_worker_copies_assignment() {
    let a = assignment(9, project_on(42, "demo", &[1, 2], "u/b-"), "payload");
    let w = a.create_worker();
    assert_eq!(w.assignment.id, 9);
    assert_eq!(w.assignment.input_data, "payload");
    assert_eq!(w.assignment.project.platforms.len(), 2);
}

#[test]
fn idle_poll_backs_off_before_polling_again() {
    let mut l = WorkerLoop::new();
    assert_eq!(l.phase(), LoopPhase::Polling);
    let a = l.step(WorkerEvent::Assigned(vec![]));
    match a {
        WorkerAction::Sleep(secs) => assert!(secs >= 60),
        _ => panic!("expected the idle backoff"),
    }
    assert_eq!(IDLE_BACKOFF_SECS, 60);
    assert_eq!(l.phase(), LoopPhase::Resting);
    assert!(matches!(l.step(WorkerEvent::Rested), WorkerAction::Poll));
    assert_eq!(l.phase(), LoopPhase::Polling);
}

#[test]
fn idle_loop_never_submits() {
    let mut l = WorkerLoop::new();
    assert!(matches!(l.step(WorkerEvent::Assigned(vec![])), WorkerAction::Sleep(60)));
    let r = AssignmentResult::new(1, "o".to_string(), "".to_string(), 0, 1);
    assert!(matches!(l.step(WorkerEvent::Executed(r)), WorkerAction::Stop));
    assert_eq!(l.phase(), LoopPhase::Stopped);
}

#[test]
fn assignments_run_one_after_another() {
    let project = Project::new(42, "demo");
    let batch = vec![assignment(1, project.duplicate(), "a"), assignment(2, project.duplicate(), "b")];
    let mut l = WorkerLoop::new();
    match l.step(WorkerEvent::Assigned(batch)) {
        WorkerAction::Execute(a) => assert_eq!(a.id, 1),
        _ => panic!("expected the first assignment"),
    }
    let r1 = AssignmentResult::new(1, "A".to_string(), "".to_string(), 0, 1);
    match l.step(WorkerEvent::Executed(r1)) {
        WorkerAction::Submit(r) => assert_eq!(r.output, "A"),
        _ => panic!("expected a submission"),
    }
    match l.step(WorkerEvent::Submitted) {
        WorkerAction::Execute(a) => assert_eq!(a.id, 2),
        _ => panic!("expected the second assignment"),
    }
    let r2 = AssignmentResult::new(2, "B".to_string(), "".to_string(), 0, 1);
    assert!(matches!(l.step(WorkerEvent::Executed(r2)), WorkerAction::Submit(_)));
    assert!(matches!(l.step(WorkerEvent::Submitted), WorkerAction::Poll));
    assert_eq!(l.phase(), LoopPhase::Polling);
}

#[test]
fn failure_stops_the_loop() {
    let mut l = WorkerLoop::new();
    assert!(matches!(l.step(WorkerEvent::Failed), WorkerAction::Stop));
    assert!(matches!(l.step(WorkerEvent::Assigned(vec![])), WorkerAction::Stop));
    assert_eq!(l.phase(), LoopPhase::Stopped);
    let mut l = WorkerLoop::new();
    let batch = vec![assignment(1, Project::new(42, "demo"), "a")];
    assert!(matches!(l.step(WorkerEvent::Assigned(batch)), WorkerAction::Execute(_)));
    assert!(matches!(l.step(WorkerEvent::Failed), WorkerAction::Stop));
}

#[test]
fn worker_thread_has_own_copies() {
    let projects = vec![project_on(42, "demo", &[1], "u/b-"), Project::new(7, "seven")];
    let ids = vec![2, 1];
    let t = WorkerThread::new(3, &projects, &ids);
    assert_eq!(t.id, 3);
    assert_eq!(t.platform_ids, vec![2, 1]);
    assert_eq!(t.projects.len(), 2);
    assert_eq!(t.projects[0].platforms.len(), 1);
    assert_eq!(t.projects[1].name, "seven");
}

#[test]
fn end_to_end_single_assignment() {
    let catalog = vec![PlatformInfo {
        id: 1,
        name: "linux-x64".to_string(),
        detector_binary: BinaryInfo { id: 10, checksum: "00".to_string(), download_url: "https://example.org/detect".to_string() },
    }];
    let mut manager = PlatformManager::new();
    for p in platforms_from_catalog(&catalog) {
        manager.add(p);
    }
    let valid = manager.collect_valid(&vec![Some(0)]);
    assert_eq!(valid.len(), 1);
    let bins = vec![ProjectBinary {
        id: 5,
        priority: 0,
        platform_id: 1,
        binary: BinaryInfo { id: 11, checksum: "00".to_string(), download_url: "https://example.org/echo".to_string() },
        project: ProjectInfo { id: 42, name: "demo".to_string() },
    }];
    let projects = assemble_projects(&valid, &bins).unwrap();
    assert_eq!(projects.len(), 1);
    assert_eq!(projects[0].id, 42);
    assert_eq!(projects[0].name, "demo");
    let platform_ids: Vec<i64> = valid.keys().cloned().collect();
    let thread = WorkerThread::new(0, &projects, &platform_ids);
    let response = RetrieveTaskOfProjectsResponse {
        assignments: vec![AssignmentInfo {
            id: 7,
            task: TaskInfo { id: 70, group_id: 1, project_id: 42, input_data: "abc".to_string() },
        }],
    };
    let assignments = assignments_from_response(&thread.projects, &response).unwrap();
    let mut l = WorkerLoop::new();
    let mut submitted: Vec<AssignmentResult> = Vec::new();
    let mut action = l.step(WorkerEvent::Assigned(assignments));
    loop {
        action = match action {
            WorkerAction::Execute(a) => {
                let worker = a.create_worker();
                let p = worker.get_platform(&thread.platform_ids).unwrap();
                assert_eq!(p.platform.id, 1);
                let input = worker.prepare_input();
                // the stub binary echoes its input and exits with 0
                let result = worker.finish(Some(0), input.data.clone(), String::new(), 10).unwrap();
                l.step(WorkerEvent::Executed(result))
            }
            WorkerAction::Submit(r) => {
                submitted.push(r);
                l.step(WorkerEvent::Submitted)
            }
            WorkerAction::Poll => break,
            _ => panic!("unexpected action"),
        };
    }
    assert_eq!(submitted.len(), 1);
    assert_eq!(submitted[0].id, 7);
    assert_eq!(submitted[0].status, 0);
    assert_eq!(submitted[0].output, "abc");
}
