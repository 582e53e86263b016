use raspberry_switch_controller::wiimote::{motion_plus_bytes, WiiAction, WiiEvent, WiiStage};

fn streaming() -> WiiStage {
    let mut stage = WiiStage::start();
    stage.advance(&WiiEvent::Written { ok: true });
    stage.advance(&WiiEvent::SensorsReady);
    stage.advance(&WiiEvent::Written { ok: true });
    stage
}

fn counting() -> [u8; 21] {
    let mut data = [0u8; 21];
    for i in 0..21 {
        data[i] = i as u8;
    }
    data
}

#[test]
fn a_remote_is_set_up_in_order() {
    let mut stage = WiiStage::start();
    assert_eq!(stage, WiiStage::Light);
    assert_eq!(
        stage.advance(&WiiEvent::Written { ok: true }),
        WiiAction::SetUpSensors
    );
    assert_eq!(stage.advance(&WiiEvent::SensorsReady), WiiAction::SetMode);
    assert_eq!(
        stage.advance(&WiiEvent::Written { ok: true }),
        WiiAction::Read
    );
    assert_eq!(stage, WiiStage::Stream);
}

#[test]
fn a_failed_write_ends_the_setup() {
    let mut stage = WiiStage::start();
    assert_eq!(
        stage.advance(&WiiEvent::Written { ok: false }),
        WiiAction::Leave
    );
    assert_eq!(stage, WiiStage::Ended);
    let mut stage = WiiStage::Mode;
    assert_eq!(
        stage.advance(&WiiEvent::Written { ok: false }),
        WiiAction::Leave
    );
    assert_eq!(stage.advance(&WiiEvent::SensorsReady), WiiAction::Leave);
    assert_eq!(stage, WiiStage::Ended);
}

#[test]
fn motion_reports_are_sampled() {
    let mut stage = streaming();
    let data = counting();
    assert_eq!(
        stage.advance(&WiiEvent::Data { mode: 0x35, data }),
        WiiAction::Sample {
            gyro: [5, 6, 7, 8, 9, 10]
        }
    );
    assert_eq!(
        stage.advance(&WiiEvent::Data { mode: 0x30, data }),
        WiiAction::Read
    );
    assert_eq!(motion_plus_bytes(&data), [5, 6, 7, 8, 9, 10]);
}

#[test]
fn a_status_report_repeats_the_mode() {
    let mut stage = streaming();
    assert_eq!(stage.advance(&WiiEvent::Status), WiiAction::RepeatMode);
    assert_eq!(
        stage.advance(&WiiEvent::Written { ok: false }),
        WiiAction::Read
    );
    assert_eq!(stage.advance(&WiiEvent::OtherReport), WiiAction::Read);
    assert_eq!(stage, WiiStage::Stream);
}

#[test]
fn the_stream_ends() {
    let mut stage = streaming();
    assert_eq!(stage.advance(&WiiEvent::ReadFailed), WiiAction::Leave);
    assert_eq!(stage, WiiStage::Ended);
    let mut stage = streaming();
    assert_eq!(stage.advance(&WiiEvent::Exiting), WiiAction::Leave);
    assert_eq!(stage, WiiStage::Ended);
}
