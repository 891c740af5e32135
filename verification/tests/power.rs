use neotron_bmc::action::{Action, Actions, Level};
use neotron_bmc::buttons::button_poll;
use neotron_bmc::idle::{handle_message, queue_request};
use neotron_bmc::led::led_power_blink;
use neotron_bmc::message::{Message, MessageQueue};
use neotron_bmc::power::{exit_reset, DcPowerState};
use neotron_bmc::protocol::{Request, RequestType};
use neotron_bmc::registers::{process_command, RegisterState};
use neotron_bmc::startup::init;

fn list(actions: &Actions) -> Vec<Action> {
    (0..actions.len())
        .map(|i| actions.get(i).unwrap())
        .collect()
}

fn handle(power: &mut DcPowerState, message: Message) -> Vec<Action> {
    let mut registers = RegisterState::default();
    let outcome = handle_message(message, None, power, &mut registers);
    assert!(outcome.reply.is_none());
    list(&outcome.actions)
}

fn read_keys() -> Request {
    Request {
        request_type: RequestType::Read,
        register: 0x40,
        length_or_data: 3,
        crc: 0,
    }
}

#[test]
fn power_states_are_numbered() {
    assert_eq!(DcPowerState::Off.code(), 0);
    assert_eq!(DcPowerState::Starting.code(), 1);
    assert_eq!(DcPowerState::On.code(), 2);
}

#[test]
fn starts_with_power_off() {
    let start = init([7; 32]);
    assert_eq!(start.state_dc_power_enabled, DcPowerState::Off);
    assert!(!start.led_state);
    assert_eq!(
        list(&start.actions),
        vec![
            Action::SetSysReset(Level::Low),
            Action::SetDcOn(Level::Low),
            Action::SetLedPower(Level::Low),
            Action::SetBuzzer(Level::Low),
            Action::SpawnLedPowerBlink,
            Action::SpawnButtonPoll,
        ]
    );
    assert_eq!(start.actions.get(6), None);
    let mut queue = start.queue;
    assert_eq!(queue.take(), None);
    let mut registers = start.register_state;
    let mut req = read_keys();
    req.register = 0x01;
    assert_eq!(process_command(req, &mut registers).data(), &[7, 7, 7]);
}

#[test]
fn power_goes_through_its_cycle() {
    let mut power = DcPowerState::Off;
    assert_eq!(
        handle(&mut power, Message::PowerButtonShortPress),
        vec![
            Action::SetSysReset(Level::Low),
            Action::SetDcOn(Level::High),
            Action::ScheduleExitReset(250),
        ]
    );
    assert_eq!(power, DcPowerState::Starting);
    assert_eq!(handle(&mut power, Message::PowerButtonRelease), vec![]);
    assert_eq!(power, DcPowerState::On);
    assert_eq!(
        handle(&mut power, Message::PowerButtonLongPress),
        vec![
            Action::StopSpi,
            Action::SetSysReset(Level::Low),
            Action::SetDcOn(Level::Low),
            Action::SpawnLedPowerBlink,
        ]
    );
    assert_eq!(power, DcPowerState::Off);
}

#[test]
fn starting_ignores_the_buttons() {
    for message in [
        Message::PowerButtonShortPress,
        Message::PowerButtonLongPress,
        Message::ResetButtonShortPress,
    ] {
        let mut power = DcPowerState::Starting;
        assert_eq!(handle(&mut power, message), vec![]);
        assert_eq!(power, DcPowerState::Starting);
    }
}

#[test]
fn off_ignores_all_but_a_press() {
    for message in [
        Message::PowerButtonLongPress,
        Message::PowerButtonRelease,
        Message::ResetButtonShortPress,
        Message::SpiEnable,
        Message::UartByte(1),
        Message::Ps2Data1(2),
    ] {
        let mut power = DcPowerState::Off;
        assert_eq!(handle(&mut power, message), vec![]);
        assert_eq!(power, DcPowerState::Off);
    }
}

#[test]
fn on_ignores_a_press_and_a_release() {
    for message in [Message::PowerButtonShortPress, Message::PowerButtonRelease] {
        let mut power = DcPowerState::On;
        assert_eq!(handle(&mut power, message), vec![]);
        assert_eq!(power, DcPowerState::On);
    }
}

#[test]
fn reset_pulses_the_line() {
    let mut power = DcPowerState::On;
    assert_eq!(
        handle(&mut power, Message::ResetButtonShortPress),
        vec![
            Action::SetSysReset(Level::Low),
            Action::ResetSpi,
            Action::ScheduleExitReset(250),
        ]
    );
    assert_eq!(power, DcPowerState::On);
}

#[test]
fn reset_ends_only_with_power() {
    assert_eq!(list(&exit_reset(DcPowerState::Off)), vec![]);
    for power in [DcPowerState::Starting, DcPowerState::On] {
        assert_eq!(
            list(&exit_reset(power)),
            vec![Action::SetSysReset(Level::High)]
        );
    }
}

#[test]
fn chip_select_drives_spi() {
    for mut power in [DcPowerState::Starting, DcPowerState::On] {
        assert_eq!(
            handle(&mut power, Message::SpiEnable),
            vec![Action::StartSpi]
        );
    }
    for mut power in [DcPowerState::Off, DcPowerState::Starting, DcPowerState::On] {
        assert_eq!(
            handle(&mut power, Message::SpiDisable),
            vec![Action::StopSpi]
        );
    }
}

#[test]
fn good_keyboard_words_are_kept() {
    let mut power = DcPowerState::On;
    let mut registers = RegisterState::default();
    handle_message(Message::Ps2Data0(0x0438), Some(0x1C), &mut power, &mut registers);
    handle_message(Message::Ps2Data0(0x0439), None, &mut power, &mut registers);
    handle_message(Message::Ps2Data1(0x0438), Some(0x1D), &mut power, &mut registers);
    let outcome = handle_message(
        Message::SpiRequest(read_keys()),
        None,
        &mut power,
        &mut registers,
    );
    assert_eq!(power, DcPowerState::On);
    assert_eq!(outcome.actions.len(), 0);
    let frame = outcome.reply.unwrap();
    assert_eq!(frame.as_slice()[0..4], [0xA0, 1, 0x1C, 0]);
    assert_eq!(neotron_bmc_protocol::calculate_crc(frame.as_slice()), 0);
}

#[test]
fn requests_wait_in_the_queue() {
    let mut queue = MessageQueue::new();
    assert!(queue_request(None, &mut queue).is_ok());
    assert_eq!(queue.take(), None);
    assert!(queue_request(Some(read_keys()), &mut queue).is_ok());
    assert_eq!(queue.take(), Some(Message::SpiRequest(read_keys())));
    for i in 0..7 {
        assert!(queue.post(Message::UartByte(i)).is_ok());
    }
    assert!(queue_request(None, &mut queue).is_ok());
    assert!(queue_request(Some(read_keys()), &mut queue).is_err());
    for i in 0..7 {
        assert_eq!(queue.take(), Some(Message::UartByte(i)));
    }
    assert_eq!(queue.take(), None);
}

#[test]
fn led_blinks_with_power_off() {
    let mut led_state = false;
    for i in 0..6 {
        let level = if i % 2 == 0 { Level::High } else { Level::Low };
        assert_eq!(
            list(&led_power_blink(DcPowerState::Off, &mut led_state)),
            vec![
                Action::SetLedPower(level),
                Action::ScheduleLedPowerBlink(1000)
            ]
        );
        assert_eq!(led_state, i % 2 == 0);
    }
}

#[test]
fn led_is_lit_with_power_on() {
    for power in [DcPowerState::Starting, DcPowerState::On] {
        for was in [false, true] {
            let mut led_state = was;
            assert_eq!(
                list(&led_power_blink(power, &mut led_state)),
                vec![Action::SetLedPower(Level::High)]
            );
            assert!(led_state);
        }
    }
}

#[test]
fn power_off_means_no_supply_and_reset() {
    let messages = [
        Message::PowerButtonShortPress,
        Message::PowerButtonLongPress,
        Message::PowerButtonRelease,
        Message::ResetButtonShortPress,
        Message::SpiEnable,
        Message::SpiDisable,
    ];
    let mut power = DcPowerState::Off;
    let (mut dc_on, mut sys_reset) = (Level::Low, Level::Low);
    let mut seed: u32 = 1;
    for _ in 0..2000 {
        seed = seed.wrapping_mul(1664525).wrapping_add(1013904223);
        let pick = (seed >> 16) as usize % (messages.len() + 1);
        let actions = if pick < messages.len() {
            handle(&mut power, messages[pick])
        } else {
            list(&exit_reset(power))
        };
        for action in actions {
            match action {
                Action::SetDcOn(level) => dc_on = level,
                Action::SetSysReset(level) => sys_reset = level,
                _ => {}
            }
        }
        assert_eq!(dc_on == Level::High, power != DcPowerState::Off);
        if power == DcPowerState::Off {
            assert_eq!(sys_reset, Level::Low);
        }
    }
}

#[test]
fn holding_the_power_button_turns_the_board_on_and_off() {
    let start = init([0; 32]);
    let mut power = start.state_dc_power_enabled;
    let (mut buttons, mut queue, mut registers) =
        (start.buttons, start.queue, start.register_state);
    let mut poll = |power: &mut DcPowerState, pressed: bool| {
        button_poll(pressed, false, &mut buttons, &mut queue);
        while let Some(message) = queue.take() {
            handle_message(message, None, power, &mut registers);
        }
    };
    for reading in 1..=40 {
        poll(&mut power, true);
        if reading < 2 {
            assert_eq!(power, DcPowerState::Off);
        } else {
            assert_eq!(power, DcPowerState::Starting);
        }
    }
    poll(&mut power, false);
    assert_eq!(power, DcPowerState::Starting);
    poll(&mut power, false);
    assert_eq!(power, DcPowerState::On);
    for _ in 0..20 {
        poll(&mut power, false);
    }
    for reading in 1..=40 {
        poll(&mut power, true);
        if reading < 16 {
            assert_eq!(power, DcPowerState::On);
        } else {
            assert_eq!(power, DcPowerState::Off);
        }
    }
}

#[test]
fn led_goes_dark_when_power_goes_off() {
    let mut led_state = false;
    let run = |power: DcPowerState, led_state: &mut bool| {
        led_power_blink(power, led_state).get(0).unwrap()
    };
    for (power, level) in [
        (DcPowerState::Off, Level::High),
        (DcPowerState::Off, Level::Low),
        (DcPowerState::On, Level::High),
        (DcPowerState::Off, Level::Low),
        (DcPowerState::Off, Level::High),
        (DcPowerState::Starting, Level::High),
        (DcPowerState::Off, Level::Low),
    ] {
        assert_eq!(run(power, &mut led_state), Action::SetLedPower(level));
        assert_eq!(led_state, level == Level::High);
    }
}

#[test]
fn keyboard_overflow_is_told_of() {
    let mut power = DcPowerState::On;
    let mut registers = RegisterState::default();
    for i in 0..20 {
        let word = Message::Ps2Data0(0);
        let outcome = handle_message(word, Some(i), &mut power, &mut registers);
        assert_eq!(outcome.kb_overflow, i >= 16);
    }
    let outcome = handle_message(Message::Ps2Data0(0), None, &mut power, &mut registers);
    assert!(!outcome.kb_overflow);
    let outcome = handle_message(Message::Ps2Data1(0), Some(1), &mut power, &mut registers);
    assert!(!outcome.kb_overflow);
}
