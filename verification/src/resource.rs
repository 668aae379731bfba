use vstd::prelude::*;

use crate::errors::AeronCError;

verus! {

/// A resource with a single close gate. The resource itself is held by value
/// (`None` once released). The cleanup is the close function; it is run at most
/// once successfully across all close paths, and a failed cleanup leaves the
/// resource open so that a later close can retry.
pub struct ManagedCResource<T, C> {
    resource: Option<T>,
    cleanup: Option<C>,
    cleanup_struct: bool,
    close_already_called: bool,
    resource_released: bool,
}

/// How a `ManagedCResource` is created: from what its initialiser produced.
pub open spec fn init_outcome<T>(code: i32, resource: Option<T>) -> Result<T, i32> {
    if code < 0 || resource is None {
        Err(code)
    } else {
        Ok(resource->0)
    }
}

impl<T, C: Fn(&T) -> i32> ManagedCResource<T, C> {
    /// The resource, while it is held.
    pub closed spec fn resource_view(&self) -> Option<T> {
        self.resource
    }

    /// A cleanup is stored (not yet run successfully).
    pub closed spec fn has_cleanup(&self) -> bool {
        self.cleanup is Some
    }

    /// The stored cleanup.
    pub closed spec fn cleanup_view(&self) -> C {
        self.cleanup->0
    }

    /// The resource is released by its owner on drop rather than by the cleanup.
    pub closed spec fn keeps_struct(&self) -> bool {
        self.cleanup_struct
    }

    /// The close gate has been passed.
    pub closed spec fn closed_flag(&self) -> bool {
        self.close_already_called
    }

    /// The underlying resource has been handed off.
    pub closed spec fn released_flag(&self) -> bool {
        self.resource_released
    }

    /// What remains of the resource once it is closed: itself when its owner
    /// releases it, else nothing.
    pub open spec fn resource_after_close(self) -> Option<T> {
        if self.keeps_struct() {
            self.resource_view()
        } else {
            None
        }
    }

    /// `next` and `r` are a possible outcome of closing `self` with the stored
    /// cleanup: an already closed resource is left as it is; without a cleanup
    /// or a resource it is just marked closed; otherwise the cleanup runs on the
    /// resource, and a code of at least zero closes it (consuming the cleanup)
    /// while a negative code is the error and leaves everything as it was.
    pub open spec fn close_outcome(self, next: Self, r: Result<(), AeronCError>) -> bool {
        if self.closed_flag() {
            r is Ok && next == self
        } else if !(self.has_cleanup() && self.resource_view() is Some) {
            &&& r is Ok
            &&& next.closed_flag() && !next.has_cleanup()
            &&& next.resource_view() == (if self.has_cleanup() {
                self.resource_after_close()
            } else {
                self.resource_view()
            })
            &&& next.keeps_struct() == self.keeps_struct()
            &&& next.released_flag() == self.released_flag()
        } else {
            match r {
                Ok(()) => {
                    &&& exists|code: i32|
                        code >= 0 && #[trigger] self.cleanup_view().ensures(
                            (&self.resource_view()->0,),
                            code,
                        )
                    &&& next.closed_flag() && !next.has_cleanup()
                    &&& next.resource_view() == self.resource_after_close()
                    &&& next.keeps_struct() == self.keeps_struct()
                    &&& next.released_flag() == self.released_flag()
                },
                Err(e) => e.code < 0 && self.cleanup_view().ensures(
                    (&self.resource_view()->0,),
                    e.code,
                ) && next == self,
            }
        }
    }

    /// `next` and `r` are a possible outcome of closing `self` with `custom`
    /// instead of the stored cleanup: an already closed resource is left as it
    /// is; with no resource it is just marked closed; otherwise `custom` runs on
    /// the resource, and a code of at least zero closes it (the stored cleanup
    /// is discarded) while a negative code is the error and leaves everything as
    /// it was, the stored cleanup included.
    pub open spec fn close_with_outcome<F: Fn(&T) -> i32>(
        self,
        next: Self,
        r: Result<(), AeronCError>,
        custom: F,
    ) -> bool {
        if self.closed_flag() {
            r is Ok && next == self
        } else if self.resource_view() is None {
            &&& r is Ok
            &&& next.closed_flag() && !next.has_cleanup() && next.resource_view() is None
            &&& next.keeps_struct() == self.keeps_struct()
            &&& next.released_flag() == self.released_flag()
        } else {
            match r {
                Ok(()) => {
                    &&& exists|code: i32|
                        code >= 0 && #[trigger] custom.ensures((&self.resource_view()->0,), code)
                    &&& next.closed_flag() && !next.has_cleanup()
                    &&& next.resource_view() == self.resource_after_close()
                    &&& next.keeps_struct() == self.keeps_struct()
                    &&& next.released_flag() == self.released_flag()
                },
                Err(e) => e.code < 0 && custom.ensures((&self.resource_view()->0,), e.code) && next
                    == self,
            }
        }
    }

    /// Runs an initialiser that returns a status code and the resource it made;
    /// a negative code or no resource is the error of that code.
    pub fn initialise<F: FnOnce() -> (i32, Option<T>)>(init: F) -> (r: Result<T, AeronCError>)
        requires
            init.requires(()),
        ensures
            exists|out: (i32, Option<T>)|
                #![trigger init.ensures((), out)]
                init.ensures((), out) && match init_outcome(out.0, out.1) {
                    Ok(v) => r == Ok::<T, AeronCError>(v),
                    Err(code) => r == Err::<T, AeronCError>(AeronCError { code }),
                },
    {
        let (code, resource) = init();
        if code < 0 {
            return Err(AeronCError::from_code(code));
        }
        match resource {
            Some(v) => Ok(v),
            None => Err(AeronCError::from_code(code)),
        }
    }

    /// Creates a managed resource from its initialiser and optional cleanup.
    /// `cleanup_struct` means the resource is released by this owner rather than
    /// by the cleanup, so closing does not drop it.
    pub fn new<F: FnOnce() -> (i32, Option<T>)>(init: F, cleanup: Option<C>, cleanup_struct: bool) -> (r:
        Result<Self, AeronCError>)
        requires
            init.requires(()),
        ensures
            exists|out: (i32, Option<T>)|
                #![trigger init.ensures((), out)]
                init.ensures((), out) && match init_outcome(out.0, out.1) {
                    Ok(v) => r matches Ok(m) && m.resource_view() == Some(v) && m.has_cleanup()
                        == (cleanup is Some) && (cleanup is Some ==> m.cleanup_view() == cleanup->0)
                        && m.keeps_struct() == cleanup_struct && !m.closed_flag()
                        && !m.released_flag(),
                    Err(code) => r matches Err(e) && e.code == code,
                },
    {
        let resource = Self::initialise(init)?;
        Ok(
            ManagedCResource {
                resource: Some(resource),
                cleanup,
                cleanup_struct,
                close_already_called: false,
                resource_released: false,
            },
        )
    }

    /// The resource has been closed, or is no longer held.
    pub fn is_closed_already_called(&self) -> (r: bool)
        ensures
            r == (self.closed_flag() || self.resource_view() is None),
    {
        self.close_already_called || self.resource.is_none()
    }

    /// The resource, while it is held.
    pub fn get(&self) -> (r: Option<&T>)
        ensures
            r matches Some(v) ==> self.resource_view() == Some(*v),
            r is None <==> self.resource_view() is None,
    {
        match &self.resource {
            Some(v) => Some(v),
            None => None,
        }
    }

    /// The underlying resource has been handed off.
    pub fn is_resource_released(&self) -> (r: bool)
        ensures
            r == self.released_flag(),
    {
        self.resource_released
    }

    /// Marks the underlying resource as handed off; nothing else changes.
    pub fn mark_resource_released(&mut self)
        ensures
            final(self).released_flag(),
            final(self).resource_view() == old(self).resource_view(),
            final(self).has_cleanup() == old(self).has_cleanup(),
            final(self).cleanup_view() == old(self).cleanup_view(),
            final(self).keeps_struct() == old(self).keeps_struct(),
            final(self).closed_flag() == old(self).closed_flag(),
    {
        self.resource_released = true;
    }

    /// Closes the resource with the stored cleanup.
    ///
    /// Once closed, further calls do nothing. Without a stored cleanup, or with
    /// no resource held, the resource is just marked closed. Otherwise the
    /// cleanup runs on the resource: a negative code is returned as the error and
    /// everything stays as it was (the cleanup is kept for a retry); on success
    /// the resource is marked closed, the cleanup is consumed and, unless the
    /// owner releases the resource itself, the resource is dropped.
    pub fn close_shared(&mut self) -> (r: Result<(), AeronCError>)
        requires
            old(self).has_cleanup() && old(self).resource_view() is Some ==> old(self).cleanup_view().requires((&old(self).resource_view()->0,)),
        ensures
            old(self).close_outcome(*final(self), r),
    {
        if self.close_already_called {
            return Ok(());
        }
        match self.cleanup.take() {
            Some(cleanup) => {
                match &self.resource {
                    Some(res) => {
                        let code = cleanup(res);
                        if code < 0 {
                            self.cleanup = Some(cleanup);
                            return Err(AeronCError::from_code(code));
                        }
                    },
                    None => {},
                }
                self.close_already_called = true;
                if !self.cleanup_struct {
                    self.resource = None;
                }
            },
            None => {
                self.close_already_called = true;
            },
        }
        Ok(())
    }

    /// The teardown of a managed resource when its owner goes away: close it
    /// with the stored cleanup unless it is already closed (a failure is
    /// returned, not retried), then release the resource if the owner keeps it.
    pub fn teardown(&mut self) -> (r: Option<AeronCError>)
        requires
            old(self).has_cleanup() && old(self).resource_view() is Some ==> old(self).cleanup_view().requires((&old(self).resource_view()->0,)),
        ensures
            old(self).closed_flag() ==> r is None,
            exists|mid: Self, res: Result<(), AeronCError>|
                #![trigger old(self).close_outcome(mid, res)]
                old(self).close_outcome(mid, res) && (res is Ok <==> r is None) && (res matches Err(
                    e,
                ) ==> r == Some(e)) && final(self).closed_flag() == mid.closed_flag()
                    && final(self).has_cleanup() == mid.has_cleanup() && final(self).released_flag()
                    == mid.released_flag() && final(self).resource_view() == (if mid.keeps_struct() {
                    None
                } else {
                    mid.resource_view()
                }),
    {
        let ghost start = *self;
        let res = if self.close_already_called {
            Ok(())
        } else {
            self.close_shared()
        };
        let ghost mid = *self;
        assert(start.close_outcome(mid, res));
        if self.cleanup_struct {
            self.resource = None;
        }
        match res {
            Ok(()) => None,
            Err(e) => Some(e),
        }
    }

    /// Closes the resource with a caller-supplied close function instead of the
    /// stored one. The stored cleanup is taken first, so it never runs later; if
    /// the custom close fails (negative code) the stored cleanup is restored and
    /// the resource stays open. Once closed, further calls do nothing.
    pub fn close_shared_with<F: Fn(&T) -> i32>(&mut self, custom_cleanup: F) -> (r: Result<
        (),
        AeronCError,
    >)
        requires
            old(self).resource_view() is Some ==> custom_cleanup.requires((&old(self).resource_view()->0,)),
        ensures
            old(self).close_with_outcome(*final(self), r, custom_cleanup),
    {
        if self.close_already_called {
            return Ok(());
        }
        let stored = self.cleanup.take();
        match &self.resource {
            Some(res) => {
                let code = custom_cleanup(res);
                if code < 0 {
                    self.cleanup = stored;
                    return Err(AeronCError::from_code(code));
                }
            },
            None => {},
        }
        self.close_already_called = true;
        if !self.cleanup_struct {
            self.resource = None;
        }
        Ok(())
    }
}

/// Closing is final: once a close (with the stored or a custom cleanup) has
/// succeeded, every later close succeeds without running anything and leaves the
/// resource as it is, so the resource is released at most once.
pub proof fn lemma_close_is_final<T, C: Fn(&T) -> i32, F: Fn(&T) -> i32>(
    m: ManagedCResource<T, C>,
    n: ManagedCResource<T, C>,
    next: ManagedCResource<T, C>,
    r: Result<(), AeronCError>,
    custom: F,
)
    requires
        m.close_outcome(n, Ok(())) || m.close_with_outcome(n, Ok(()), custom),
    ensures
        n.closed_flag(),
        n.close_outcome(next, r) ==> r is Ok && next == n,
        n.close_with_outcome(next, r, custom) ==> r is Ok && next == n,
{
}

/// A failed close changes nothing: the resource stays open with the same
/// resource and stored cleanup, so a later close can retry.
pub proof fn lemma_failed_close_is_retryable<T, C: Fn(&T) -> i32, F: Fn(&T) -> i32>(
    m: ManagedCResource<T, C>,
    n: ManagedCResource<T, C>,
    e: AeronCError,
    custom: F,
)
    requires
        m.close_outcome(n, Err(e)) || m.close_with_outcome(n, Err(e), custom),
    ensures
        n == m,
        !n.closed_flag(),
        e.code < 0,
{
}

/// A handle to a resource: owned and closed through a managed gate, owned by
/// value, or borrowed from an owner elsewhere (which alone closes it).
pub enum CResource<T, C> {
    OwnedOnHeap(ManagedCResource<T, C>),
    OwnedOnStack(T),
    Borrowed(T),
}

impl<T, C: Fn(&T) -> i32> CResource<T, C> {
    /// The resource the handle refers to, if it is still held.
    pub fn get(&self) -> (r: Option<&T>)
        ensures
            match self {
                CResource::OwnedOnHeap(m) => (r is None <==> m.resource_view() is None) && (r matches Some(
                    v,
                ) ==> m.resource_view() == Some(*v)),
                CResource::OwnedOnStack(v) => r == Some(v),
                CResource::Borrowed(v) => r == Some(v),
            },
    {
        match self {
            CResource::OwnedOnHeap(m) => m.get(),
            CResource::OwnedOnStack(v) => Some(v),
            CResource::Borrowed(v) => Some(v),
        }
    }

    /// The managed resource, for an owned-on-heap handle.
    pub fn as_owned(&self) -> (r: Option<&ManagedCResource<T, C>>)
        ensures
            match self {
                CResource::OwnedOnHeap(m) => r == Some(m),
                _ => r is None,
            },
    {
        match self {
            CResource::OwnedOnHeap(m) => Some(m),
            _ => None,
        }
    }

    /// Closes the resource through its gate; stack and borrowed handles own no
    /// cleanup, so for them this does nothing and succeeds.
    pub fn close_resource(&mut self) -> (r: Result<(), AeronCError>)
        requires
            match *old(self) {
                CResource::OwnedOnHeap(m) => m.has_cleanup() && m.resource_view() is Some
                    ==> m.cleanup_view().requires((&m.resource_view()->0,)),
                _ => true,
            },
        ensures
            match *old(self) {
                CResource::OwnedOnHeap(m) => *final(self) matches CResource::OwnedOnHeap(n)
                    && m.close_outcome(n, r),
                _ => r is Ok && *final(self) == *old(self),
            },
    {
        match self {
            CResource::OwnedOnHeap(m) => m.close_shared(),
            _ => Ok(()),
        }
    }

    /// Closes through the same gate with a custom close function; stack and
    /// borrowed handles do nothing and succeed.
    pub fn close_resource_with<F: Fn(&T) -> i32>(&mut self, cleanup: F) -> (r: Result<(), AeronCError>)
        requires
            match *old(self) {
                CResource::OwnedOnHeap(m) => m.resource_view() is Some ==> cleanup.requires(
                    (&m.resource_view()->0,),
                ),
                _ => true,
            },
        ensures
            match *old(self) {
                CResource::OwnedOnHeap(m) => *final(self) matches CResource::OwnedOnHeap(n)
                    && m.close_with_outcome(n, r, cleanup),
                _ => r is Ok && *final(self) == *old(self),
            },
    {
        match self {
            CResource::OwnedOnHeap(m) => m.close_shared_with(cleanup),
            _ => Ok(()),
        }
    }

    /// Closes an owner resource only when this is its last live reference
    /// (`live_references`, counting this one); otherwise the close is deferred to
    /// the natural teardown of the other references and nothing changes.
    pub fn close_resource_deferred_if_shared(&mut self, live_references: usize) -> (r: Result<
        (),
        AeronCError,
    >)
        requires
            match *old(self) {
                CResource::OwnedOnHeap(m) => m.has_cleanup() && m.resource_view() is Some
                    ==> m.cleanup_view().requires((&m.resource_view()->0,)),
                _ => true,
            },
        ensures
            match *old(self) {
                CResource::OwnedOnHeap(m) => if live_references > 1 {
                    r is Ok && *final(self) == *old(self)
                } else {
                    *final(self) matches CResource::OwnedOnHeap(n) && m.close_outcome(n, r)
                },
                _ => r is Ok && *final(self) == *old(self),
            },
    {
        match self {
            CResource::OwnedOnHeap(m) => {
                if live_references > 1 {
                    Ok(())
                } else {
                    m.close_shared()
                }
            },
            _ => Ok(()),
        }
    }
}

/// Owns a value handed to a callback registry until it is released.
pub struct Handler<T> {
    value: Option<T>,
    should_drop: bool,
}

/// Utility type for setting empty handlers.
pub struct Handlers;

impl<T> Handler<T> {
    /// The value, while it is held.
    pub closed spec fn value_view(&self) -> Option<T> {
        self.value
    }

    /// The handler still owns its value and must release it.
    pub closed spec fn owns(&self) -> bool {
        self.should_drop
    }

    /// Takes ownership of a value.
    pub fn leak(handler: T) -> (r: Self)
        ensures
            r.value_view() == Some(handler),
            r.owns(),
    {
        Handler { value: Some(handler), should_drop: true }
    }

    /// The held value, by reference, as the handler's `Deref` gives it.
    pub fn get(&self) -> (r: Option<&T>)
        ensures
            match self.value_view() {
                Some(v) => r matches Some(x) && *x == v,
                None => r is None,
            },
    {
        match &self.value {
            Some(v) => Some(v),
            None => None,
        }
    }

    /// The handler holds no value.
    pub fn is_none(&self) -> (r: bool)
        ensures
            r == (self.value_view() is None),
    {
        self.value.is_none()
    }

    /// Releases the value if the handler owns it; afterwards it holds nothing
    /// and owns nothing. Releasing again does nothing.
    pub fn release(&mut self)
        ensures
            old(self).owns() && old(self).value_view() is Some ==> final(self).value_view() is None
                && !final(self).owns(),
            !(old(self).owns() && old(self).value_view() is Some) ==> final(self).value_view() == old(self).value_view() && final(self).owns() == old(self).owns(),
    {
        if self.should_drop && self.value.is_some() {
            self.value = None;
            self.should_drop = false;
        }
    }
}

/// A scan for a free UDP port: ports are probed one at a time, in increasing
/// order from the start port, and the scan stops at the first one found free
/// or after `u16::MAX`.
pub struct UdpPortScan {
    start: u16,
    next: u32,
    found: Option<u16>,
}

impl UdpPortScan {
    /// The port the scan started from.
    pub closed spec fn start_view(&self) -> u16 {
        self.start
    }

    /// The next port to probe (`u16::MAX + 1` once every port was refused).
    pub closed spec fn next_view(&self) -> int {
        self.next as int
    }

    /// The free port found, if any.
    pub closed spec fn found_view(&self) -> Option<u16> {
        self.found
    }

    /// Well-formed: the ports probed so far are `start..next`, in order.
    pub closed spec fn wf(&self) -> bool {
        &&& self.start <= self.next <= 0x10000
        &&& self.found matches Some(p) ==> p as int == self.next
    }

    /// A scan that has probed nothing yet.
    pub fn new(start_port: u16) -> (r: UdpPortScan)
        ensures
            r.wf(),
            r.start_view() == start_port,
            r.next_view() == start_port,
            r.found_view() is None,
    {
        UdpPortScan { start: start_port, next: start_port as u32, found: None }
    }

    /// The port to probe now: the next one, while none was found and ports
    /// remain.
    pub fn next_port(&self) -> (r: Option<u16>)
        requires
            self.wf(),
        ensures
            self.found_view() is Some || self.next_view() > u16::MAX ==> r is None,
            !(self.found_view() is Some || self.next_view() > u16::MAX) ==> r == Some(self.next_view() as u16),
    {
        if self.found.is_some() || self.next > 0xffff {
            None
        } else {
            Some(self.next as u16)
        }
    }

    /// Records the probe of the port `next_port` gave: a free port ends the
    /// scan with it, a refused one moves the scan to the following port.
    pub fn record(&mut self, available: bool)
        requires
            old(self).wf(),
            old(self).found_view() is None,
            old(self).next_view() <= u16::MAX,
        ensures
            final(self).wf(),
            final(self).start_view() == old(self).start_view(),
            available ==> final(self).found_view() == Some(old(self).next_view() as u16)
                && final(self).next_view() == old(self).next_view(),
            !available ==> final(self).found_view() is None && final(self).next_view() == old(self).next_view() + 1,
    {
        if available {
            self.found = Some(self.next as u16);
        } else {
            self.next = self.next + 1;
        }
    }

    /// The free port found, if any.
    pub fn result(&self) -> (r: Option<u16>)
        ensures
            r == self.found_view(),
    {
        self.found
    }
}

/// The first port at or after `start` that the availability probe accepts,
/// found by a `UdpPortScan`: ports are probed one at a time in increasing
/// order, stopping at the first accepted. Each port before it was probed and
/// refused; `None` when every port up to `u16::MAX` was refused.
pub fn find_unused_udp_port<P: Fn(u16) -> bool>(start_port: u16, is_available: P) -> (r: Option<u16>)
    requires
        forall|p: u16| is_available.requires((p,)),
    ensures
        r matches Some(p) ==> start_port <= p && is_available.ensures((p,), true),
        forall|q: u16|
            start_port <= q && (r matches Some(p) ==> q < p) ==> #[trigger] is_available.ensures(
                (q,),
                false,
            ),
{
    let mut scan = UdpPortScan::new(start_port);
    loop
        invariant
            scan.wf(),
            scan.start_view() == start_port,
            forall|p: u16| is_available.requires((p,)),
            forall|q: u16| start_port <= q < scan.next_view() ==> #[trigger] is_available.ensures((q,), false),
            scan.found_view() matches Some(p) ==> is_available.ensures((p,), true),
        decreases 0x10000 - scan.next_view() + (if scan.found_view() is Some { 0int } else { 1int }),
    {
        match scan.next_port() {
            Some(port) => {
                let ok = is_available(port);
                scan.record(ok);
            },
            None => {
                return scan.result();
            },
        }
    }
}

/// Creating a managed resource succeeds exactly when its initialiser reports
/// a code of at least zero (complete or still pending) together with a
/// resource, and then holds that resource; a negative code, or no resource,
/// is the error carrying the code the initialiser returned.
pub proof fn lemma_init_outcome_accepts_nonnegative_codes<T>(code: i32, resource: Option<T>)
    ensures
        init_outcome(code, resource) is Ok <==> (code >= 0 && resource is Some),
        init_outcome(code, resource) matches Ok(v) ==> resource == Some(v),
        init_outcome(code, resource) matches Err(c) ==> c == code,
{
}

} // verus!
