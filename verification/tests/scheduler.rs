use lorawan::device::{needs_save, restore_from_storable, storable_of};
use lorawan::encoding::parser::FRMPayload;
use lorawan::mac::scheduler::{
    after_class_a_transmission, after_join_window, after_send_attempt, after_window, downlink_outcome, first_channel,
    join_window_outcome, on_rxc_event, random_delay_ms, JoinStep, JoinWindowOutcome, RxStage, RxcAction, RxcEvent,
    SendAttempt, SendStep, WindowOutcome, WindowStep,
};
use lorawan::mac::Error;
use lorawan::mac::types::{Configuration, Credentials, Frame, DR};

#[test]
fn random_delay_is_between_one_and_two_seconds() {
    assert_eq!(random_delay_ms(0), 1000);
    assert_eq!(random_delay_ms(999), 1999);
    assert_eq!(random_delay_ms(1000), 1000);
    assert_eq!(random_delay_ms(u32::MAX), 1000 + u32::MAX % 1000);
}

#[test]
fn send_attempt_steps() {
    assert_eq!(after_send_attempt(Frame::Data, 0, 1, SendAttempt::Received), SendStep::ReturnReceived);
    assert_eq!(after_send_attempt(Frame::Data, 0, 1, SendAttempt::NothingReceived), SendStep::ReturnNothing);
    assert_eq!(after_send_attempt(Frame::Data, 0, 1, SendAttempt::Failed), SendStep::ReturnFailure);
    assert_eq!(after_send_attempt(Frame::Data, 0, 3, SendAttempt::Failed), SendStep::NextTransmission);
    assert_eq!(after_send_attempt(Frame::Data, 2, 3, SendAttempt::NothingReceived), SendStep::ReturnNothing);
    assert_eq!(after_send_attempt(Frame::Data, 255, 255, SendAttempt::NothingReceived), SendStep::ReturnNothing);
    assert_eq!(after_send_attempt(Frame::Join, 0, 1, SendAttempt::NothingReceived), SendStep::NextChannel);
    assert_eq!(after_send_attempt(Frame::Join, 0, 1, SendAttempt::Received), SendStep::ReturnReceived);
}

#[test]
fn receive_window_steps() {
    assert_eq!(after_window(RxStage::Rx1, WindowOutcome::Accepted), WindowStep::Done(true));
    assert_eq!(after_window(RxStage::Rx1, WindowOutcome::NotAccepted), WindowStep::Next(RxStage::Rx2));
    assert_eq!(after_window(RxStage::Rx1, WindowOutcome::Failed), WindowStep::Next(RxStage::Rx2));
    assert_eq!(after_window(RxStage::Rx2, WindowOutcome::Accepted), WindowStep::Done(true));
    assert_eq!(after_window(RxStage::Rx2, WindowOutcome::Failed), WindowStep::Done(false));
}

#[test]
fn class_c_and_join_steps() {
    assert_eq!(on_rxc_event(RxcEvent::WindowOpened), RxcAction::OpenWindow);
    assert_eq!(on_rxc_event(RxcEvent::Received), RxcAction::HandleDownlink);
    assert_eq!(on_rxc_event(RxcEvent::Failed), RxcAction::KeepListening);
    assert_eq!(after_join_window(JoinWindowOutcome::Joined), JoinStep::Joined);
    assert_eq!(after_join_window(JoinWindowOutcome::Refused), JoinStep::Abort);
    assert_eq!(after_join_window(JoinWindowOutcome::NotJoined), JoinStep::Continue);
    assert_eq!(after_join_window(JoinWindowOutcome::RadioFailed), JoinStep::Continue);
}

#[test]
fn first_drawn_channel() {
    let none: [Option<u32>; 10] = [None; 10];
    assert_eq!(first_channel(&none), None);
    let mut some = none;
    some[4] = Some(7);
    some[6] = Some(9);
    assert_eq!(first_channel(&some), Some(7));
}

#[test]
fn storable_roundtrip() {
    let mut configuration = Configuration::default();
    configuration.rx1_data_rate_offset = Some(2);
    configuration.rx_delay = Some(5);
    configuration.rx2_data_rate = Some(DR::_3);
    configuration.rx2_frequency = Some(869_525_000);
    let mut credentials = Credentials::new([1; 8], [2; 8], [3; 16]);
    credentials.dev_nonce = 77;
    let storable = storable_of(&configuration, &credentials);
    assert_eq!(storable.dev_nonce, 77);
    assert!(needs_save(&storable, None));
    assert!(!needs_save(&storable, Some(storable)));
    let mut other = storable;
    other.dev_nonce = 78;
    assert!(needs_save(&storable, Some(other)));

    let (c, k) = restore_from_storable(&storable, [1; 8], [2; 8], [3; 16]);
    assert_eq!(c, configuration);
    assert_eq!(k, credentials);
}

#[test]
fn class_a_repeats_until_the_count() {
    assert!(!after_class_a_transmission(1, 3));
    assert!(!after_class_a_transmission(2, 3));
    assert!(after_class_a_transmission(3, 3));
    assert!(after_class_a_transmission(1, 1));
    assert!(after_class_a_transmission(1, 0));
}

#[test]
fn window_outcomes() {
    assert_eq!(downlink_outcome(&Ok(Some(FRMPayload::Empty))), WindowOutcome::Accepted);
    assert_eq!(downlink_outcome(&Ok(None)), WindowOutcome::NotAccepted);
    assert_eq!(downlink_outcome(&Err(Error::InvalidMic)), WindowOutcome::NotAccepted);
    assert_eq!(join_window_outcome(&None), JoinWindowOutcome::RadioFailed);
    assert_eq!(join_window_outcome(&Some(Ok(()))), JoinWindowOutcome::Joined);
    assert_eq!(join_window_outcome(&Some(Err(Error::InvalidMic))), JoinWindowOutcome::NotJoined);
    let refused = Err(Error::Region(lorawan::mac::region::Error::InvalidCfListType));
    assert_eq!(join_window_outcome(&Some(refused)), JoinWindowOutcome::Refused);
}
