use chat_relay::heartbeat::{Beat, Heartbeat, Pulse, HEARTBEAT_PERIOD_SECONDS};

#[test]
fn the_heartbeat_signals_at_each_tick() {
    let mut h = Heartbeat::start(9);
    assert_eq!(h, Heartbeat { chat_id: 9, stopped: false });
    assert_eq!(h.observe(Pulse::Tick), Beat::Signal { chat_id: 9 });
    assert_eq!(h.observe(Pulse::Tick), Beat::Signal { chat_id: 9 });
    assert!(!h.stopped);
}

#[test]
fn the_heartbeat_is_silent_after_the_stop() {
    let mut h = Heartbeat::start(9);
    assert_eq!(h.observe(Pulse::Tick), Beat::Signal { chat_id: 9 });
    assert_eq!(h.observe(Pulse::Stop), Beat::Exit);
    assert!(h.stopped);
    assert_eq!(h.observe(Pulse::Tick), Beat::Exit);
    assert_eq!(h.observe(Pulse::Stop), Beat::Exit);
    assert_eq!(h.observe(Pulse::Tick), Beat::Exit);
    assert_eq!(h, Heartbeat { chat_id: 9, stopped: true });
}

#[test]
fn a_heartbeat_stopped_at_once_never_signals() {
    let mut h = Heartbeat::start(-4);
    assert_eq!(h.observe(Pulse::Stop), Beat::Exit);
    assert_eq!(h.observe(Pulse::Tick), Beat::Exit);
}

#[test]
fn no_signal_follows_a_stop_in_any_order_of_pulses() {
    for bits in 0u32..256 {
        let mut h = Heartbeat::start(1);
        let mut stopped = false;
        for at in 0..8 {
            let pulse = if bits >> at & 1 == 1 { Pulse::Stop } else { Pulse::Tick };
            stopped = stopped || pulse == Pulse::Stop;
            let beat = h.observe(pulse);
            if stopped {
                assert_eq!(beat, Beat::Exit);
            } else {
                assert_eq!(beat, Beat::Signal { chat_id: 1 });
            }
        }
    }
}

#[test]
fn the_period_is_five_seconds() {
    assert_eq!(HEARTBEAT_PERIOD_SECONDS, 5);
}
