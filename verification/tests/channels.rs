use moonlight::channels::Channel;
use moonlight::heartbeat::Heartbeat;
use moonlight::render_channel::RenderChannel;

#[test]
fn send_keeps_order_and_asks_for_a_frame_each() {
    let mut channel: Channel<u32> = Channel::new();
    let mut sender = channel.sender();
    sender.send(1);
    sender.send(2);
    sender.send(3);
    assert_eq!(sender.tx, vec![1, 2, 3]);
    assert_eq!(sender.frames.pending(), 3);
    channel.accept(sender);
    assert_eq!(channel.rx, vec![1, 2, 3]);
    assert_eq!(channel.frames.pending(), 3);
}

#[test]
fn senders_are_taken_in_one_after_the_other() {
    let mut channel: Channel<&str> = Channel::new();
    let mut a = channel.sender();
    let mut b = channel.sender();
    a.send("a1");
    b.send("b1");
    a.send("a2");
    channel.accept(a);
    channel.accept(b);
    assert_eq!(channel.try_drain(), vec!["a1", "a2", "b1"]);
    assert!(channel.rx.is_empty());
    assert_eq!(channel.frames.pending(), 3);
}

#[test]
fn frames_are_taken_one_by_one() {
    let mut channel: Channel<u8> = Channel::new();
    assert!(!channel.next_frame());
    let mut sender = channel.sender();
    sender.send(7);
    sender.send(8);
    channel.accept(sender);
    assert!(channel.next_frame());
    assert!(channel.next_frame());
    assert!(!channel.next_frame());
    assert_eq!(channel.try_drain(), vec![7, 8]);
}

#[test]
fn render_channel_counts_tokens() {
    let mut scheduler = RenderChannel::new();
    assert_eq!(scheduler.pending(), 0);
    assert!(scheduler.take().is_none());
    scheduler.next_frame();
    scheduler.next_frame();
    let mut handle = scheduler.sender();
    handle.next_frame();
    scheduler.absorb(handle);
    assert_eq!(scheduler.pending(), 3);
    assert!(scheduler.take().is_some());
    assert_eq!(scheduler.pending(), 2);
}

#[test]
fn heartbeat_dies_once_and_for_all() {
    let mut heartbeat = Heartbeat::new();
    assert!(!heartbeat.is_dead());
    heartbeat.stop();
    assert!(heartbeat.is_dead());
    heartbeat.stop();
    heartbeat.kill();
    assert!(heartbeat.is_dead());
}
