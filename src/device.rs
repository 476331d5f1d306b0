//! The lifecycle of a virtual device: a creation session that registers a
//! descriptor step by step, and the created device, which is destroyed
//! exactly once.

use vstd::prelude::*;
use crate::caps::{CapabilityDescriptor, EventCode, Request, descriptor_supported, plan_of, plan_error};
use crate::error::{DeviceError, errno_of, errno_from_return};
use crate::event::{EV_ABS, InputEvent, record_of};
use crate::paths::{devnode_from_entries, devnode_of, opt_bytes};

verus! {

/// What the caller does next for a creation session.
#[derive(Clone, Copy, Debug, PartialEq, Eq, Structural)]
pub enum Action {
    /// Open the kernel's control node and report the handle or error.
    Open,
    /// Issue this request on the handle and report the kernel's answer.
    Send(i32, Request),
    /// Close the handle: creation failed with this error.
    Close(i32, DeviceError),
    /// Creation failed with this error; nothing is held.
    Fail(DeviceError),
    /// The device exists on this handle: resolve its paths and take it.
    Finish(i32),
}

/// Model of a creation session.
pub struct CreationView {
    pub handle: Option<i32>,
    pub plan: Seq<Request>,
    pub next: nat,
    pub failure: Option<DeviceError>,
}

/// A creation in progress: the plan for a descriptor, the handle of the
/// control node once open, how many requests the kernel has accepted, and
/// the failure that ended it, if one did.
pub struct Creation {
    handle: Option<i32>,
    plan: Vec<Request>,
    next: usize,
    failure: Option<DeviceError>,
}

/// The error for a refused request: a capability the kernel would not
/// register, or the error number of a failed setup or creation.
pub open spec fn refusal(req: Request, ret: i32) -> DeviceError {
    match req {
        Request::EnableType(c) => DeviceError::Unsupported(c),
        Request::EnableCode(c) => DeviceError::Unsupported(c),
        Request::SetupAxis(a) => DeviceError::Unsupported(EventCode { type_: EV_ABS, code: a.code }),
        Request::Setup => DeviceError::Os(errno_of(ret)),
        Request::Create => DeviceError::Os(errno_of(ret)),
    }
}

/// What a session asks for next.
pub open spec fn action_of(c: CreationView) -> Action {
    match c.failure {
        Some(e) => match c.handle {
            Some(h) => Action::Close(h, e),
            None => Action::Fail(e),
        },
        None => match c.handle {
            None => Action::Open,
            Some(h) => if c.next < c.plan.len() {
                Action::Send(h, c.plan[c.next as int])
            } else {
                Action::Finish(h)
            },
        },
    }
}

/// The session after the control node was opened (`ret` is a handle) or
/// could not be (`ret` is negative, an error number).
pub open spec fn open_step(c: CreationView, ret: i32) -> CreationView {
    if ret >= 0 {
        CreationView { handle: Some(ret), ..c }
    } else {
        CreationView { failure: Some(DeviceError::Os(errno_of(ret))), ..c }
    }
}

/// The session after the kernel answered the pending request with `ret`.
pub open spec fn reply_step(c: CreationView, ret: i32) -> CreationView {
    if ret == 0 {
        CreationView { next: c.next + 1, ..c }
    } else {
        CreationView { failure: Some(refusal(c.plan[c.next as int], ret)), ..c }
    }
}

/// A session waiting for the kernel's answer to a request.
pub open spec fn awaiting_reply(c: CreationView) -> bool {
    c.failure is None && c.handle is Some && c.next < c.plan.len()
}

/// A session whose every request was accepted.
pub open spec fn finished(c: CreationView) -> bool {
    c.failure is None && c.handle is Some && c.next == c.plan.len()
}

impl View for Creation {
    type V = CreationView;

    closed spec fn view(&self) -> CreationView {
        CreationView {
            handle: self.handle,
            plan: self.plan@,
            next: self.next as nat,
            failure: self.failure,
        }
    }
}

impl Creation {
    /// The session invariant: the count of accepted requests stays within
    /// the plan.
    pub closed spec fn wf(&self) -> bool {
        self.next <= self.plan@.len()
    }

    /// What the caller does next.
    pub fn next_action(&self) -> (r: Action)
        requires
            self.wf(),
        ensures
            r == action_of(self@),
    {
        match self.failure {
            Some(e) => match self.handle {
                Some(h) => Action::Close(h, e),
                None => Action::Fail(e),
            },
            None => match self.handle {
                None => Action::Open,
                Some(h) => if self.next < self.plan.len() {
                    Action::Send(h, self.plan[self.next])
                } else {
                    Action::Finish(h)
                },
            },
        }
    }

    /// Records the outcome of opening the control node: a handle, or a
    /// negative error number.
    pub fn opened(&mut self, ret: i32)
        requires
            old(self).wf(),
            old(self)@.handle is None,
            old(self)@.failure is None,
        ensures
            final(self).wf(),
            final(self)@ == open_step(old(self)@, ret),
    {
        if ret >= 0 {
            self.handle = Some(ret);
        } else {
            self.failure = Some(DeviceError::Os(errno_from_return(ret)));
        }
    }

    /// Records the kernel's answer to the pending request: `0` when it was
    /// accepted, an error number otherwise.
    pub fn replied(&mut self, ret: i32)
        requires
            old(self).wf(),
            awaiting_reply(old(self)@),
        ensures
            final(self).wf(),
            final(self)@ == reply_step(old(self)@, ret),
    {
        if ret == 0 {
            let n = self.plan.len();
            assert(self.next < n);
            self.next = self.next + 1;
        } else {
            let e = match self.plan[self.next] {
                Request::EnableType(c) => DeviceError::Unsupported(c),
                Request::EnableCode(c) => DeviceError::Unsupported(c),
                Request::SetupAxis(a) => DeviceError::Unsupported(EventCode { type_: EV_ABS, code: a.code }),
                Request::Setup => DeviceError::Os(errno_from_return(ret)),
                Request::Create => DeviceError::Os(errno_from_return(ret)),
            };
            self.failure = Some(e);
        }
    }

    /// The created device, with its syspath when the kernel gave one and
    /// the event entries of that syspath's directory.
    pub fn into_device(self, syspath: Option<Vec<u8>>, entries: &Vec<Vec<u8>>) -> (r: UInputDevice)
        requires
            self.wf(),
            finished(self@),
        ensures
            r@ == (DeviceView {
                handle: self@.handle.unwrap(),
                open: true,
                syspath: opt_bytes(syspath),
                devnode: devnode_of(opt_bytes(syspath), entries.deep_view()),
            }),
    {
        let handle = self.handle.unwrap();
        let devnode = match syspath {
            Some(_) => devnode_from_entries(entries),
            None => None,
        };
        UInputDevice { handle, open: true, syspath, devnode }
    }
}

/// Model of a created device.
pub struct DeviceView {
    pub handle: i32,
    pub open: bool,
    pub syspath: Option<Seq<u8>>,
    pub devnode: Option<Seq<u8>>,
}

/// A virtual device, from creation until it is destroyed.
pub struct UInputDevice {
    handle: i32,
    open: bool,
    syspath: Option<Vec<u8>>,
    devnode: Option<Vec<u8>>,
}

impl View for UInputDevice {
    type V = DeviceView;

    closed spec fn view(&self) -> DeviceView {
        DeviceView {
            handle: self.handle,
            open: self.open,
            syspath: opt_bytes(self.syspath),
            devnode: opt_bytes(self.devnode),
        }
    }
}

/// The handle of a device, while it is open.
pub open spec fn fd_spec(d: DeviceView) -> Result<i32, DeviceError> {
    if d.open {
        Ok(d.handle)
    } else {
        Err(DeviceError::NotOpen)
    }
}

/// A path of a device, while it is open.
pub open spec fn path_spec(d: DeviceView, p: Option<Seq<u8>>) -> Result<Option<Seq<u8>>, DeviceError> {
    if d.open {
        Ok(p)
    } else {
        Err(DeviceError::NotOpen)
    }
}

/// A device after a release, and the handle to destroy if this release
/// is the one that ends it.
pub open spec fn release_spec(d: DeviceView) -> (DeviceView, Option<i32>) {
    if d.open {
        (DeviceView { open: false, ..d }, Some(d.handle))
    } else {
        (d, None)
    }
}

fn clone_path(p: &Option<Vec<u8>>) -> (r: Option<Vec<u8>>)
    ensures
        opt_bytes(r) == opt_bytes(*p),
{
    match p {
        Some(v) => {
            let mut out: Vec<u8> = Vec::new();
            let mut i: usize = 0;
            while i < v.len()
                invariant
                    i <= v@.len(),
                    out@ == v@.subrange(0, i as int),
                decreases v@.len() - i,
            {
                out.push(v[i]);
                i = i + 1;
                assert(out@ =~= v@.subrange(0, i as int));
            }
            assert(v@.subrange(0, v@.len() as int) =~= v@);
            Some(out)
        },
        None => None,
    }
}

impl UInputDevice {
    /// The device is found through its syspath: without one it has no
    /// device node either.
    #[verifier::type_invariant]
    spec fn inv(self) -> bool {
        self.devnode is Some ==> self.syspath is Some
    }

    /// Starts creating a device that advertises `desc`. The descriptor is
    /// checked whole before anything is opened, so a refusal here holds no
    /// resource.
    pub fn create_from_device(desc: &CapabilityDescriptor) -> (r: Result<Creation, DeviceError>)
        ensures
            r is Ok <==> descriptor_supported(desc.codes@, desc.axes@),
            r matches Ok(c) ==> c.wf() && c@ == (CreationView {
                handle: None,
                plan: plan_of(desc.codes@, desc.axes@),
                next: 0,
                failure: None,
            }),
            r matches Err(e) ==> plan_error(desc.codes@, desc.axes@, e),
    {
        match desc.registration_plan() {
            Ok(plan) => Ok(Creation { handle: None, plan, next: 0, failure: None }),
            Err(e) => Err(e),
        }
    }

    /// The handle the device was created on, for the caller's own I/O
    /// multiplexing. It stays owned by the device: the same value on every
    /// call while the device is open, `NotOpen` once it is destroyed.
    pub fn fd(&self) -> (r: Result<i32, DeviceError>)
        ensures
            r == fd_spec(self@),
    {
        if self.open {
            Ok(self.handle)
        } else {
            Err(DeviceError::NotOpen)
        }
    }

    /// The device node, as found through the syspath.
    pub fn devnode(&self) -> (r: Result<Option<Vec<u8>>, DeviceError>)
        ensures
            r is Ok <==> self@.open,
            r matches Ok(p) ==> opt_bytes(p) == self@.devnode,
            r matches Err(e) ==> e == DeviceError::NotOpen,
            self@.syspath is None ==> self@.devnode is None,
    {
        proof {
            use_type_invariant(self);
        }
        if self.open {
            Ok(clone_path(&self.devnode))
        } else {
            Err(DeviceError::NotOpen)
        }
    }

    /// The sysfs path of the input device itself, or `None` when the kernel
    /// could not name it.
    pub fn syspath(&self) -> (r: Result<Option<Vec<u8>>, DeviceError>)
        ensures
            r is Ok <==> self@.open,
            r matches Ok(p) ==> opt_bytes(p) == self@.syspath,
            r matches Err(e) ==> e == DeviceError::NotOpen,
    {
        if self.open {
            Ok(clone_path(&self.syspath))
        } else {
            Err(DeviceError::NotOpen)
        }
    }

    /// The record to write on the handle to post `event`. The caller ends
    /// each group of events with a synchronization event; nothing here adds
    /// one, buffers or reorders.
    pub fn write_event(&self, event: &InputEvent) -> (r: Result<Vec<u8>, DeviceError>)
        ensures
            r is Ok <==> self@.open,
            r matches Ok(b) ==> b@ == record_of(*event),
            r matches Err(e) ==> e == DeviceError::NotOpen,
    {
        if self.open {
            Ok(event.to_record())
        } else {
            Err(DeviceError::NotOpen)
        }
    }

    /// Ends the device. The first call hands back the handle to destroy and
    /// close; every later call hands back nothing, so the kernel is asked
    /// to destroy the device once.
    pub fn release(&mut self) -> (r: Option<i32>)
        ensures
            (final(self)@, r) == release_spec(old(self)@),
    {
        proof {
            use_type_invariant(&*self);
        }
        if self.open {
            self.open = false;
            Some(self.handle)
        } else {
            None
        }
    }
}

/// Creation never stops half way while holding a resource: a request the
/// kernel refuses ends the session by closing the handle it was sent on,
/// with the refusal as the error.
pub proof fn lemma_refusal_closes_handle(c: CreationView, ret: i32)
    requires
        awaiting_reply(c),
        ret != 0,
    ensures
        action_of(reply_step(c, ret)) == Action::Close(
            c.handle.unwrap(),
            refusal(c.plan[c.next as int], ret),
        ),
{
}

/// A control node that cannot be opened ends the session with its error,
/// and there is nothing to close.
pub proof fn lemma_open_failure_holds_nothing(c: CreationView, ret: i32)
    requires
        c.handle is None,
        c.failure is None,
        ret < 0,
    ensures
        action_of(open_step(c, ret)) == Action::Fail(DeviceError::Os(errno_of(ret))),
        open_step(c, ret).handle is None,
{
}

/// A session whose requests are all accepted ends by handing over the
/// handle of a created device; until then it keeps asking for the next one.
pub proof fn lemma_accepted_requests_finish(c: CreationView)
    requires
        c.handle is Some,
        c.failure is None,
        c.next <= c.plan.len(),
    ensures
        c.next == c.plan.len() ==> action_of(c) == Action::Finish(c.handle.unwrap()),
        c.next < c.plan.len() ==> action_of(reply_step(c, 0)) == if c.next + 1 < c.plan.len() {
            Action::Send(c.handle.unwrap(), c.plan[c.next + 1int])
        } else {
            Action::Finish(c.handle.unwrap())
        },
{
}

/// The handle is the same on every query while the device is open, and
/// is refused with `NotOpen` once the device has been released.
pub proof fn lemma_handle_stable(d: DeviceView)
    ensures
        d.open ==> fd_spec(d) == Ok::<i32, DeviceError>(d.handle),
        fd_spec(release_spec(d).0) == Err::<i32, DeviceError>(DeviceError::NotOpen),
{
}

/// Without a syspath a device has no device node: the node is found
/// through the syspath.
pub proof fn lemma_devnode_needs_syspath(entries: Seq<Seq<u8>>)
    ensures
        devnode_of(None, entries) is None,
{
}

/// Releasing twice destroys once: the first release of an open device
/// hands back its handle, the second hands back nothing and changes
/// nothing.
pub proof fn lemma_release_idempotent(d: DeviceView)
    ensures
        release_spec(d).1 is Some <==> d.open,
        release_spec(d).1 is Some ==> release_spec(d).1 == Some(d.handle),
        release_spec(release_spec(d).0).1 is None,
        release_spec(release_spec(d).0).0 == release_spec(d).0,
{
}

} // verus!
