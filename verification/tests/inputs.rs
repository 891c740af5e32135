use neotron_bmc::action::Action;
use neotron_bmc::buttons::{button_poll, Buttons};
use neotron_bmc::interrupts::{
    chip_select_edge, exti4_15_interrupt, ps2_clock_edge, usart1_interrupt, QueueFull,
};
use neotron_bmc::message::{Message, MessageQueue};

fn drain(queue: &mut MessageQueue) -> Vec<Message> {
    let mut messages = Vec::new();
    while let Some(message) = queue.take() {
        messages.push(message);
    }
    messages
}

fn poll(buttons: &mut Buttons, pwr: bool, rst: bool) -> Vec<Message> {
    let mut queue = MessageQueue::new();
    let actions = button_poll(pwr, rst, buttons, &mut queue);
    assert_eq!(actions.len(), 1);
    assert_eq!(actions.get(0), Some(Action::ScheduleButtonPoll(75)));
    drain(&mut queue)
}

fn full() -> MessageQueue {
    let mut queue = MessageQueue::new();
    for i in 0..7 {
        assert!(queue.post(Message::UartByte(i)).is_ok());
    }
    queue
}

#[test]
fn queue_is_first_in_first_out() {
    let mut queue = MessageQueue::new();
    assert!(queue.post(Message::SpiEnable).is_ok());
    assert!(queue.post(Message::SpiDisable).is_ok());
    assert!(queue.post(Message::SpiEnable).is_ok());
    assert_eq!(queue.take(), Some(Message::SpiEnable));
    assert_eq!(queue.take(), Some(Message::SpiDisable));
    assert_eq!(queue.take(), Some(Message::SpiEnable));
    assert_eq!(queue.take(), None);
}

#[test]
fn queue_holds_seven_messages() {
    let mut queue = full();
    assert_eq!(queue.post(Message::SpiEnable), Err(Message::SpiEnable));
    assert_eq!(queue.take(), Some(Message::UartByte(0)));
    assert_eq!(queue.post(Message::SpiEnable), Ok(()));
    assert_eq!(drain(&mut queue).len(), 7);
}

#[test]
fn a_held_power_button_is_one_short_and_one_long_press() {
    let mut buttons = Buttons::new();
    for reading in 1..=40 {
        let expected = match reading {
            2 => vec![Message::PowerButtonShortPress],
            16 => vec![Message::PowerButtonLongPress],
            _ => vec![],
        };
        assert_eq!(poll(&mut buttons, true, false), expected);
    }
    assert_eq!(poll(&mut buttons, false, false), vec![]);
    assert_eq!(
        poll(&mut buttons, false, false),
        vec![Message::PowerButtonRelease]
    );
    for _ in 0..40 {
        assert_eq!(poll(&mut buttons, false, false), vec![]);
    }
}

#[test]
fn a_bounce_of_the_power_button_reads_as_a_release() {
    let mut buttons = Buttons::new();
    assert_eq!(poll(&mut buttons, true, false), vec![]);
    assert_eq!(poll(&mut buttons, false, false), vec![]);
    assert_eq!(
        poll(&mut buttons, false, false),
        vec![Message::PowerButtonRelease]
    );
}

#[test]
fn reset_button_reports_a_press_alone() {
    let mut buttons = Buttons::new();
    assert_eq!(poll(&mut buttons, false, true), vec![]);
    assert_eq!(
        poll(&mut buttons, false, true),
        vec![Message::ResetButtonShortPress]
    );
    for _ in 0..20 {
        assert_eq!(poll(&mut buttons, false, true), vec![]);
    }
    for _ in 0..20 {
        assert_eq!(poll(&mut buttons, false, false), vec![]);
    }
}

#[test]
fn both_buttons_report_in_order() {
    let mut buttons = Buttons::new();
    for _ in 0..14 {
        poll(&mut buttons, true, false);
    }
    assert_eq!(poll(&mut buttons, true, true), vec![]);
    assert_eq!(
        poll(&mut buttons, true, true),
        vec![
            Message::PowerButtonLongPress,
            Message::ResetButtonShortPress
        ]
    );
}

#[test]
fn button_messages_that_find_no_room_are_dropped() {
    let mut buttons = Buttons::new();
    for _ in 0..14 {
        poll(&mut buttons, true, false);
    }
    poll(&mut buttons, true, true);
    let mut queue = full();
    assert_eq!(queue.take(), Some(Message::UartByte(0)));
    button_poll(true, true, &mut buttons, &mut queue);
    let messages = drain(&mut queue);
    assert_eq!(messages.len(), 7);
    assert_eq!(messages[5], Message::UartByte(6));
    assert_eq!(messages[6], Message::PowerButtonLongPress);
}

#[test]
fn a_long_press_comes_sixteen_readings_after_a_release() {
    let mut buttons = Buttons::new();
    let mut seed: u32 = 7;
    let mut released: Option<usize> = None;
    let mut long_presses = 0;
    for k in 0..20000 {
        seed = seed.wrapping_mul(1664525).wrapping_add(1013904223);
        let pressed = (seed >> 16) % 16 != 0;
        for message in poll(&mut buttons, pressed, false) {
            if message == Message::PowerButtonRelease {
                released = Some(k);
            }
            if message == Message::PowerButtonLongPress {
                long_presses += 1;
                if let Some(j) = released {
                    assert!(k - j >= 16);
                }
            }
        }
    }
    assert!(long_presses > 0);
}

#[test]
fn a_complete_keyboard_word_is_posted() {
    let mut queue = MessageQueue::new();
    assert_eq!(ps2_clock_edge(None, &mut queue), Ok(()));
    assert_eq!(ps2_clock_edge(Some(0x0438), &mut queue), Ok(()));
    assert_eq!(drain(&mut queue), vec![Message::Ps2Data0(0x0438)]);
}

#[test]
fn a_keyboard_word_must_not_be_lost() {
    let mut queue = full();
    assert_eq!(ps2_clock_edge(None, &mut queue), Ok(()));
    assert_eq!(ps2_clock_edge(Some(1), &mut queue), Err(QueueFull));
    assert_eq!(drain(&mut queue).len(), 7);
}

#[test]
fn chip_select_is_posted() {
    let mut queue = MessageQueue::new();
    assert_eq!(chip_select_edge(true, &mut queue), Ok(()));
    assert_eq!(chip_select_edge(false, &mut queue), Ok(()));
    assert_eq!(
        drain(&mut queue),
        vec![Message::SpiEnable, Message::SpiDisable]
    );
}

#[test]
fn chip_select_must_not_be_lost() {
    let mut queue = full();
    assert_eq!(chip_select_edge(true, &mut queue), Err(QueueFull));
    assert_eq!(chip_select_edge(false, &mut queue), Err(QueueFull));
}

#[test]
fn uart_bytes_are_posted_or_dropped() {
    let mut queue = MessageQueue::new();
    usart1_interrupt(None, &mut queue);
    usart1_interrupt(Some(0x41), &mut queue);
    assert_eq!(drain(&mut queue), vec![Message::UartByte(0x41)]);
    let mut queue = full();
    usart1_interrupt(Some(0x41), &mut queue);
    let messages = drain(&mut queue);
    assert_eq!(messages.len(), 7);
    assert_eq!(messages[6], Message::UartByte(6));
}

#[test]
fn external_pins_post_the_keyboard_first() {
    let mut queue = MessageQueue::new();
    assert_eq!(exti4_15_interrupt(None, None, &mut queue), Ok(()));
    assert_eq!(exti4_15_interrupt(Some(None), None, &mut queue), Ok(()));
    assert_eq!(drain(&mut queue), vec![]);
    assert_eq!(exti4_15_interrupt(Some(Some(5)), Some(true), &mut queue), Ok(()));
    assert_eq!(exti4_15_interrupt(None, Some(false), &mut queue), Ok(()));
    assert_eq!(
        drain(&mut queue),
        vec![
            Message::Ps2Data0(5),
            Message::SpiEnable,
            Message::SpiDisable
        ]
    );
}

#[test]
fn external_pins_must_not_lose_a_message() {
    let mut queue = full();
    assert_eq!(exti4_15_interrupt(Some(None), None, &mut queue), Ok(()));
    assert_eq!(
        exti4_15_interrupt(Some(Some(5)), None, &mut queue),
        Err(QueueFull)
    );
    assert_eq!(queue.take(), Some(Message::UartByte(0)));
    assert_eq!(
        exti4_15_interrupt(Some(Some(5)), Some(true), &mut queue),
        Err(QueueFull)
    );
    let messages = drain(&mut queue);
    assert_eq!(messages.len(), 7);
    assert_eq!(messages[6], Message::Ps2Data0(5));
}
