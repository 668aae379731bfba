use rusteron::resource::{find_unused_udp_port, CResource, Handler, ManagedCResource, UdpPortScan};
use std::cell::Cell;
use std::rc::Rc;

type Cleanup = fn(&i32) -> i32;

#[test]
fn close_resource_is_noop_for_stack_and_borrowed_resources() {
    let borrowed_value = 10;
    let mut borrowed: CResource<i32, Cleanup> = CResource::Borrowed(borrowed_value);
    assert!(borrowed.close_resource().is_ok());
    assert_eq!(Some(&10), borrowed.get());

    let mut stack: CResource<i32, Cleanup> = CResource::OwnedOnStack(20);
    assert!(stack.close_resource().is_ok());
    assert_eq!(20, *stack.get().unwrap());
}

#[test]
fn close_resource_closes_owned_resource_once() {
    let close_count = Rc::new(Cell::new(0));
    let close_count_for_cleanup = close_count.clone();
    let cleanup = move |_res: &i32| -> i32 {
        close_count_for_cleanup.set(close_count_for_cleanup.get() + 1);
        0
    };
    let resource = ManagedCResource::new(|| (0, Some(40)), Some(cleanup), false);
    assert!(resource.is_ok());
    let mut handle = CResource::OwnedOnHeap(resource.ok().unwrap());
    assert!(handle.get().is_some());

    assert!(handle.close_resource().is_ok());
    assert_eq!(1, close_count.get());
    assert!(handle.get().is_none());

    assert!(handle.close_resource().is_ok());
    assert_eq!(1, close_count.get());
}

#[test]
fn close_resource_defers_owner_close_while_dependent_is_alive() {
    let close_count = Rc::new(Cell::new(0));
    let close_count_for_cleanup = close_count.clone();
    let owner_cleanup = move |_res: &i32| -> i32 {
        close_count_for_cleanup.set(close_count_for_cleanup.get() + 1);
        0
    };
    let owner = ManagedCResource::new(|| (0, Some(60)), Some(owner_cleanup), false);
    assert!(owner.is_ok());
    let mut owner = CResource::OwnedOnHeap(owner.ok().unwrap());

    // A dependent still holds a reference: two live references.
    assert!(owner.close_resource_deferred_if_shared(2).is_ok());
    assert_eq!(0, close_count.get());
    assert!(owner.get().is_some());

    // The dependent is gone: the last reference closes.
    assert!(owner.close_resource_deferred_if_shared(1).is_ok());
    assert_eq!(1, close_count.get());
    assert!(owner.get().is_none());
}

#[test]
fn close_resource_deferral_is_retryable_if_owner_close_fails_after_dependent_drops() {
    let close_count = Rc::new(Cell::new(0));
    let close_count_for_cleanup = close_count.clone();
    let owner_cleanup = move |_res: &i32| -> i32 {
        let count = close_count_for_cleanup.get() + 1;
        close_count_for_cleanup.set(count);
        if count == 1 {
            return -1;
        }
        0
    };
    let owner = ManagedCResource::new(|| (0, Some(70)), Some(owner_cleanup), false);
    assert!(owner.is_ok());
    let mut owner = CResource::OwnedOnHeap(owner.ok().unwrap());

    assert!(owner.close_resource_deferred_if_shared(2).is_ok());
    assert_eq!(0, close_count.get());
    assert!(owner.get().is_some());

    assert!(owner.close_resource_deferred_if_shared(1).is_err());
    assert_eq!(1, close_count.get());
    assert!(owner.get().is_some());

    assert!(owner.close_resource_deferred_if_shared(1).is_ok());
    assert_eq!(2, close_count.get());
    assert!(owner.get().is_none());
}

#[test]
fn close_resource_propagates_failure_and_allows_retry() {
    let close_count = Rc::new(Cell::new(0));
    let close_count_for_cleanup = close_count.clone();
    let cleanup = move |_res: &i32| -> i32 {
        let count = close_count_for_cleanup.get() + 1;
        close_count_for_cleanup.set(count);
        if count == 1 {
            return -1;
        }
        0
    };
    let resource = ManagedCResource::new(|| (0, Some(50)), Some(cleanup), false);
    assert!(resource.is_ok());
    let mut handle = CResource::OwnedOnHeap(resource.ok().unwrap());

    assert!(handle.close_resource().is_err());
    assert_eq!(1, close_count.get());
    assert!(handle.get().is_some());

    assert!(handle.close_resource().is_ok());
    assert_eq!(2, close_count.get());
    assert!(handle.get().is_none());
}

#[test]
fn close_resource_with_uses_custom_cleanup_once() {
    let default_close_count = Rc::new(Cell::new(0));
    let custom_close_count = Rc::new(Cell::new(0));
    let default_close_count_for_cleanup = default_close_count.clone();
    let cleanup = move |_res: &i32| -> i32 {
        default_close_count_for_cleanup.set(default_close_count_for_cleanup.get() + 1);
        0
    };
    let resource = ManagedCResource::new(|| (0, Some(80)), Some(cleanup), false);
    assert!(resource.is_ok());
    let mut handle = CResource::OwnedOnHeap(resource.ok().unwrap());

    let custom_close_count_for_cleanup = custom_close_count.clone();
    assert!(handle
        .close_resource_with(move |_res: &i32| {
            custom_close_count_for_cleanup.set(custom_close_count_for_cleanup.get() + 1);
            0
        })
        .is_ok());
    assert_eq!(0, default_close_count.get());
    assert_eq!(1, custom_close_count.get());
    assert!(handle.get().is_none());

    assert!(handle.close_resource().is_ok());
    assert_eq!(0, default_close_count.get());
    assert_eq!(1, custom_close_count.get());
}

#[test]
fn close_resource_with_failure_restores_default_cleanup_for_retry() {
    let default_close_count = Rc::new(Cell::new(0));
    let custom_close_count = Rc::new(Cell::new(0));
    let default_close_count_for_cleanup = default_close_count.clone();
    let cleanup = move |_res: &i32| -> i32 {
        default_close_count_for_cleanup.set(default_close_count_for_cleanup.get() + 1);
        0
    };
    let resource = ManagedCResource::new(|| (0, Some(90)), Some(cleanup), false);
    assert!(resource.is_ok());
    let mut handle = CResource::OwnedOnHeap(resource.ok().unwrap());

    let custom_close_count_for_cleanup = custom_close_count.clone();
    assert!(handle
        .close_resource_with(move |_res: &i32| {
            custom_close_count_for_cleanup.set(custom_close_count_for_cleanup.get() + 1);
            -1
        })
        .is_err());
    assert_eq!(0, default_close_count.get());
    assert_eq!(1, custom_close_count.get());
    assert!(handle.get().is_some());

    assert!(handle.close_resource().is_ok());
    assert_eq!(1, default_close_count.get());
    assert_eq!(1, custom_close_count.get());
    assert!(handle.get().is_none());
}

#[test]
fn cleanup_struct_keeps_resource_after_close() {
    let resource = ManagedCResource::new(|| (0, Some(20)), Some(|_res: &i32| -> i32 { 0 }), true);
    let mut resource = resource.ok().unwrap();
    assert!(!resource.is_closed_already_called());
    assert!(resource.close_shared().is_ok());
    assert!(resource.is_closed_already_called());
    assert_eq!(Some(&20), resource.get());
}

#[test]
fn initialise_fails_on_negative_code_or_missing_resource() {
    let failed = ManagedCResource::<i32, Cleanup>::new(|| (-3, Some(1)), None, false);
    assert_eq!(-3, failed.err().unwrap().code);
    let missing = ManagedCResource::<i32, Cleanup>::new(|| (0, None), None, false);
    assert_eq!(0, missing.err().unwrap().code);
}

#[test]
fn resource_released_flag_is_sticky() {
    let mut resource = ManagedCResource::<i32, Cleanup>::new(|| (0, Some(5)), None, false)
        .ok()
        .unwrap();
    assert!(!resource.is_resource_released());
    resource.mark_resource_released();
    assert!(resource.is_resource_released());
    assert!(resource.close_shared().is_ok());
    assert!(resource.is_closed_already_called());
    assert_eq!(Some(&5), resource.get());
}

#[test]
fn release_nulls_pointer_so_is_none_is_true() {
    let mut handler = Handler::leak(42u32);
    assert!(!handler.is_none(), "freshly leaked handler must be non-null");
    handler.release();
    assert!(handler.is_none(), "release() must drop the value");
}

#[test]
fn release_is_idempotent_no_double_free() {
    let mut handler = Handler::leak(99u64);
    handler.release();
    handler.release();
    assert!(handler.is_none());
}

#[test]
fn release_then_drop_is_silent() {
    let mut handler = Handler::leak(7u16);
    handler.release();
    drop(handler);
}

#[test]
fn find_unused_udp_port_returns_first_available() {
    assert_eq!(Some(40002), find_unused_udp_port(40000, |p: u16| p >= 40002));
    assert_eq!(Some(40000), find_unused_udp_port(40000, |_p: u16| true));
    assert_eq!(None, find_unused_udp_port(65530, |_p: u16| false));
    assert_eq!(Some(65535), find_unused_udp_port(65535, |p: u16| p == 65535));
}

#[test]
fn test_drop_calls_cleanup_non_borrowed_no_cleanup_struct() {
    let flag = Rc::new(Cell::new(false));
    let flag_clone = flag.clone();
    let cleanup = move |_res: &i32| -> i32 {
        flag_clone.set(true);
        0
    };
    let resource = ManagedCResource::new(|| (0, Some(10)), Some(cleanup), false);
    assert!(resource.is_ok());
    let mut resource = resource.ok().unwrap();
    assert!(resource.teardown().is_none());
    assert!(flag.get());
    assert!(resource.get().is_none());
}

#[test]
fn test_drop_calls_cleanup_non_borrowed_with_cleanup_struct() {
    let flag = Rc::new(Cell::new(false));
    let flag_clone = flag.clone();
    let cleanup = move |_res: &i32| -> i32 {
        flag_clone.set(true);
        0
    };
    let resource = ManagedCResource::new(|| (0, Some(20)), Some(cleanup), true);
    assert!(resource.is_ok());
    let mut resource = resource.ok().unwrap();
    assert!(resource.teardown().is_none());
    assert!(flag.get());
    assert!(resource.get().is_none());
}

#[test]
fn test_drop_does_not_call_cleanup_if_already_closed() {
    let flag = Rc::new(Cell::new(false));
    let flag_clone = flag.clone();
    let cleanup = move |_res: &i32| -> i32 {
        flag_clone.set(true);
        0
    };
    let resource = ManagedCResource::new(|| (0, Some(30)), Some(cleanup), false);
    assert!(resource.is_ok());
    let mut resource = resource.ok().unwrap();
    assert!(resource.close_shared().is_ok());
    flag.set(false);
    assert!(resource.teardown().is_none());
    assert!(!flag.get());
}

#[test]
fn teardown_reports_a_failed_cleanup() {
    let resource = ManagedCResource::new(|| (0, Some(31)), Some(|_res: &i32| -> i32 { -7 }), false);
    let mut resource = resource.ok().unwrap();
    assert_eq!(-7, resource.teardown().unwrap().code);
    assert!(!resource.is_closed_already_called());
}

#[test]
fn udp_port_scan_probes_in_order_and_stops_at_the_first_free_port() {
    let mut scan = UdpPortScan::new(65533);
    let mut probed = Vec::new();
    while let Some(p) = scan.next_port() {
        probed.push(p);
        scan.record(p == 65534);
    }
    assert_eq!(probed, vec![65533, 65534]);
    assert_eq!(scan.result(), Some(65534));
}

#[test]
fn udp_port_scan_ends_after_the_last_port() {
    let mut scan = UdpPortScan::new(65534);
    let mut probed = Vec::new();
    while let Some(p) = scan.next_port() {
        probed.push(p);
        scan.record(false);
    }
    assert_eq!(probed, vec![65534, 65535]);
    assert_eq!(scan.result(), None);
}

#[test]
fn find_unused_udp_port_probes_each_port_once_in_order() {
    let seen = Rc::new(std::cell::RefCell::new(Vec::new()));
    let s = seen.clone();
    let r = find_unused_udp_port(100, move |p: u16| {
        s.borrow_mut().push(p);
        p == 103
    });
    assert_eq!(r, Some(103));
    assert_eq!(*seen.borrow(), vec![100, 101, 102, 103]);
}
