//! Feedback bookkeeping tests: partial updates overwrite exactly the
//! populated fields.

use robstride_driver::types::{
    ActuatorCommand, ActuatorFeedback, ActuatorFeedbackUpdate, ActuatorState,
};

fn update(qpos: Option<i64>, qvel: Option<i64>, qfrc: Option<i64>) -> ActuatorFeedbackUpdate {
    ActuatorFeedbackUpdate {
        qpos,
        qvel,
        qfrc,
        kp: None,
        kd: None,
        temp: None,
        faults: None,
    }
}

#[test]
fn merge_overwrites_only_populated_fields() {
    let mut feedback = ActuatorFeedback::zeroed();
    feedback.kp = 7;
    feedback.merge(update(Some(100), None, Some(-5)));
    assert_eq!(feedback.qpos, 100);
    assert_eq!(feedback.qvel, 0);
    assert_eq!(feedback.qfrc, -5);
    assert_eq!(feedback.kp, 7);
    feedback.merge(ActuatorFeedbackUpdate {
        qpos: None,
        qvel: Some(3),
        qfrc: None,
        kp: Some(1),
        kd: Some(2),
        temp: Some(250_000),
        faults: Some(0xA),
    });
    assert_eq!(feedback.qpos, 100);
    assert_eq!(feedback.qvel, 3);
    assert_eq!(feedback.qfrc, -5);
    assert_eq!(feedback.kp, 1);
    assert_eq!(feedback.kd, 2);
    assert_eq!(feedback.temp, 250_000);
    assert_eq!(feedback.faults, 0xA);
}

#[test]
fn state_merge_keeps_command_and_set_command_keeps_feedback() {
    let mut state = ActuatorState::zeroed();
    let command = ActuatorCommand { qpos: 1, qvel: 2, qfrc: 3, kp: 4, kd: 5 };
    state.set_command(command);
    state.merge_feedback(update(Some(42), None, None));
    assert_eq!(state.command, command);
    assert_eq!(state.feedback.qpos, 42);
    state.set_command(ActuatorCommand::zeroed());
    assert_eq!(state.feedback.qpos, 42);
    assert_eq!(state.command, ActuatorCommand::zeroed());
}
