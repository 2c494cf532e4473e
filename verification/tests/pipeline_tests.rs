use flicks::avatar_pipeline::{AvatarPipeline, PipelineRun, RunAction};

fn drive(total: usize, results: &[Result<(), &'static str>]) -> (Vec<usize>, Result<(), &'static str>) {
    let mut pipeline: AvatarPipeline<&str, usize> = AvatarPipeline::new("provider");
    for i in 0..total {
        pipeline.add(i);
    }
    let (mut run, mut action): (PipelineRun, RunAction<&'static str>) = pipeline.run();
    let mut called = Vec::new();
    loop {
        match action {
            RunAction::ChangeAvatar(i) => {
                called.push(pipeline.stages()[i]);
                action = run.after_stage(results[i]);
            }
            RunAction::Finish(r) => return (called, r),
        }
    }
}

#[test]
fn no_stages_finishes_at_once() {
    assert_eq!(drive(0, &[]), (vec![], Ok(())));
}

#[test]
fn all_stages_run_in_order() {
    assert_eq!(drive(3, &[Ok(()), Ok(()), Ok(())]), (vec![0, 1, 2], Ok(())));
}

#[test]
fn first_failure_stops_the_run() {
    assert_eq!(drive(3, &[Ok(()), Err("refused"), Ok(())]), (vec![0, 1], Err("refused")));
    assert_eq!(drive(2, &[Err("first"), Err("second")]), (vec![0], Err("first")));
}

#[test]
fn add_chains_and_keeps_order() {
    let mut p: AvatarPipeline<u8, &str> = AvatarPipeline::new(1);
    p.add("discord").add("telegram");
    assert_eq!(p.stages(), &vec!["discord", "telegram"]);
    assert_eq!(*p.avatar_provider(), 1);
}
