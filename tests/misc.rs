use ferrite::async_counter::AsyncCounter;
use ferrite::async_flag::AsyncFlag;
use ferrite::double_vec::{DoubleVec, Stream};
use ferrite::raw::Poll;

#[test]
fn try_give_twice() {
    let mut flag = AsyncFlag::new(false);
    assert!(flag.try_give());
    assert!(!flag.try_give());
    assert!(flag.value());
    assert!(flag.try_take());
    assert!(!flag.try_take());
    assert!(!flag.value());
}

#[test]
fn flag_wait_and_switch() {
    let mut flag = AsyncFlag::new(false);
    let w = flag.wait(true);
    assert_eq!(w.poll(&mut flag), Poll::Pending);
    let give = flag.give();
    assert_eq!(give.poll(&mut flag), Poll::Ready(()));
    assert_eq!(give.poll(&mut flag), Poll::Pending);
    assert_eq!(w.poll(&mut flag), Poll::Ready(()));
    let take = flag.take();
    assert_eq!(take.poll(&mut flag), Poll::Ready(()));
    assert!(!flag.value());
    assert_eq!(take.poll(&mut flag), Poll::Pending);
}

#[test]
fn counter_add_sub_wait() {
    let mut c = AsyncCounter::new(3);
    let w = c.wait(5);
    assert_eq!(w.poll(&mut c), Poll::Pending);
    c.add(4);
    assert_eq!(c.value(), 7);
    assert_eq!(w.poll(&mut c), Poll::Ready(()));
    assert_eq!(c.sub(Some(2)), 2);
    assert_eq!(c.value(), 5);
    assert_eq!(c.sub(Some(10)), 5);
    assert_eq!(c.value(), 0);
    c.add(6);
    assert_eq!(c.sub(None), 6);
    assert_eq!(c.value(), 0);
}

#[test]
fn double_buffer_swap() {
    let mut dv: DoubleVec<i32> = DoubleVec::new(4);
    assert!(!dv.ready());
    assert_eq!(dv.wait_ready(), Poll::Pending);
    dv.write();
    dv.push(1);
    dv.push(2);
    dv.push(3);
    assert_eq!(dv.pending_buffer(), &vec![1, 2, 3]);
    dv.release();
    assert!(dv.ready());
    assert_eq!(dv.wait_ready(), Poll::Ready(()));
    assert!(dv.try_swap());
    assert_eq!(dv.current_buffer(), &vec![1, 2, 3]);
    assert!(!dv.try_swap());
    assert_eq!(dv.current_buffer(), &vec![1, 2, 3]);
}

#[test]
fn double_buffer_discard_and_accumulate() {
    let mut dv: DoubleVec<u8> = DoubleVec::new(0);
    dv.write();
    dv.push(9);
    dv.discard();
    assert!(!dv.ready());
    assert!(!dv.try_swap());
    dv.write();
    dv.push(1);
    dv.release();
    dv.write();
    dv.push(2);
    dv.release();
    assert!(dv.try_swap());
    assert_eq!(dv.current_buffer(), &vec![1, 2]);
    assert!(dv.pending_buffer().is_empty());
}

#[test]
fn counter_wait_sub_takes_within_range() {
    let mut c = AsyncCounter::new(1);
    let w = c.wait_sub(3, Some(4));
    assert_eq!(w.poll(&mut c), Poll::Pending);
    assert_eq!(c.value(), 1);
    c.add(9);
    assert_eq!(w.poll(&mut c), Poll::Ready(4));
    assert_eq!(c.value(), 6);
    let all = c.wait_sub(0, None);
    assert_eq!(all.poll(&mut c), Poll::Ready(6));
    assert_eq!(c.value(), 0);
}

#[test]
fn stream_over_double_buffer() {
    let mut dv: DoubleVec<u32> = DoubleVec::new(2);
    let mut once = Stream::new(false);
    assert_eq!(once.next(&mut dv), None);
    dv.write();
    dv.push(1);
    dv.push(2);
    dv.release();
    assert_eq!(once.next(&mut dv), Some(1));
    assert_eq!(once.next(&mut dv), Some(2));
    assert_eq!(once.next(&mut dv), None);
    dv.write();
    dv.push(3);
    dv.release();
    assert_eq!(once.next(&mut dv), Some(3));
    assert_eq!(once.next(&mut dv), None);

    let mut cycle = Stream::new(true);
    assert_eq!(cycle.next(&mut dv), Some(3));
    assert_eq!(cycle.next(&mut dv), Some(3));
}
