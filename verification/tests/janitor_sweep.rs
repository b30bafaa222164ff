use notify_scheduler::janitor::{Sweep, SweepAction, SweepEvent, SweepNote, SweepStage};

#[test]
fn sweep_begins_by_probing() {
    let sweep = Sweep::start();
    assert_eq!(sweep.stage(), SweepStage::Probing);
    assert_eq!(sweep.pending(), SweepAction::Probe);
}

#[test]
fn directory_that_is_found_is_removed_and_made_anew() {
    let mut sweep = Sweep::start();
    assert_eq!(sweep.advance(SweepEvent::Found), Ok(None));
    assert_eq!(sweep.pending(), SweepAction::Remove);
    assert_eq!(sweep.advance(SweepEvent::Removed), Ok(None));
    assert_eq!(sweep.pending(), SweepAction::Create);
    assert_eq!(sweep.advance(SweepEvent::Created), Ok(None));
    assert_eq!(sweep.pending(), SweepAction::Finish);
    assert_eq!(sweep.stage(), SweepStage::Done);
}

#[test]
fn directory_that_is_missing_is_only_made() {
    let mut sweep = Sweep::start();
    assert_eq!(sweep.advance(SweepEvent::Missing), Ok(None));
    assert_eq!(sweep.pending(), SweepAction::Create);
    assert_eq!(sweep.advance(SweepEvent::Created), Ok(None));
    assert_eq!(sweep.stage(), SweepStage::Done);
}

#[test]
fn failed_removal_is_noted_and_the_directory_is_made_all_the_same() {
    let mut sweep = Sweep::start();
    sweep.advance(SweepEvent::Found).unwrap();
    assert_eq!(
        sweep.advance(SweepEvent::RemoveFailed("not there".into())),
        Ok(Some(SweepNote::RemovalFailed("not there".into())))
    );
    assert_eq!(sweep.pending(), SweepAction::Create);
    assert_eq!(sweep.advance(SweepEvent::Created), Ok(None));
    assert_eq!(sweep.stage(), SweepStage::Done);
}

#[test]
fn failed_creation_fails_the_sweep() {
    let mut sweep = Sweep::start();
    sweep.advance(SweepEvent::Missing).unwrap();
    assert_eq!(
        sweep.advance(SweepEvent::CreateFailed("read-only".into())),
        Ok(Some(SweepNote::JanitorError("read-only".into())))
    );
    assert_eq!(sweep.stage(), SweepStage::Failed);
    assert_eq!(sweep.pending(), SweepAction::Finish);
}

#[test]
fn answer_to_another_step_is_handed_back_by_the_sweep() {
    let mut sweep = Sweep::start();
    assert_eq!(sweep.advance(SweepEvent::Created), Err(SweepEvent::Created));
    assert_eq!(sweep.advance(SweepEvent::Removed), Err(SweepEvent::Removed));
    assert_eq!(sweep.stage(), SweepStage::Probing);
    sweep.advance(SweepEvent::Found).unwrap();
    assert_eq!(sweep.advance(SweepEvent::Found), Err(SweepEvent::Found));
    assert_eq!(sweep.advance(SweepEvent::Created), Err(SweepEvent::Created));
    assert_eq!(sweep.stage(), SweepStage::Removing);
    sweep.advance(SweepEvent::Removed).unwrap();
    assert_eq!(sweep.advance(SweepEvent::Removed), Err(SweepEvent::Removed));
    assert_eq!(sweep.stage(), SweepStage::Creating);
    sweep.advance(SweepEvent::Created).unwrap();
    assert_eq!(sweep.advance(SweepEvent::Created), Err(SweepEvent::Created));
    assert_eq!(sweep.advance(SweepEvent::Missing), Err(SweepEvent::Missing));
    assert_eq!(sweep.stage(), SweepStage::Done);
}

#[test]
fn failed_sweep_takes_no_more_answers() {
    let mut sweep = Sweep::start();
    sweep.advance(SweepEvent::Missing).unwrap();
    sweep.advance(SweepEvent::CreateFailed("full".into())).unwrap();
    assert_eq!(sweep.advance(SweepEvent::Created), Err(SweepEvent::Created));
    assert_eq!(sweep.stage(), SweepStage::Failed);
}
