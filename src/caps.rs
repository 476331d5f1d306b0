//! Capability descriptors and the registration plan that announces one to
//! the kernel.

use vstd::prelude::*;
use crate::error::DeviceError;
use crate::event::{EV_ABS, EV_FF, EV_KEY, EV_LED, EV_MSC, EV_REL, EV_REP, EV_SND, EV_SW, EV_SYN};

verus! {

/// An event type and a code within it.
#[derive(Clone, Copy, Debug, PartialEq, Eq, Structural)]
pub struct EventCode {
    pub type_: u16,
    pub code: u16,
}

/// Range and noise parameters of an absolute axis.
#[derive(Clone, Copy, Debug, PartialEq, Eq, Structural)]
pub struct AbsInfo {
    pub minimum: i32,
    pub maximum: i32,
    pub fuzz: i32,
    pub flat: i32,
    pub resolution: i32,
}

/// The parameters of one absolute axis, by its code.
#[derive(Clone, Copy, Debug, PartialEq, Eq, Structural)]
pub struct AxisSetup {
    pub code: u16,
    pub info: AbsInfo,
}

/// What a virtual device advertises: the event codes it can produce, in
/// the order given, and the parameters of its absolute axes.
pub struct CapabilityDescriptor {
    pub codes: Vec<EventCode>,
    pub axes: Vec<AxisSetup>,
}

/// One registration step, as the kernel's control node takes it.
#[derive(Clone, Copy, Debug, PartialEq, Eq, Structural)]
pub enum Request {
    /// Enable the type of this code.
    EnableType(EventCode),
    /// Enable this code within its type.
    EnableCode(EventCode),
    /// Set the parameters of an absolute axis.
    SetupAxis(AxisSetup),
    /// Give the device its name and identity.
    Setup,
    /// Create the device from everything registered so far.
    Create,
}

/// The largest code of each event type that uinput accepts.
pub open spec fn code_max(t: u16) -> Option<u16> {
    if t == EV_SYN {
        Some(0x0fu16)
    } else if t == EV_KEY {
        Some(0x2ffu16)
    } else if t == EV_REL {
        Some(0x0fu16)
    } else if t == EV_ABS {
        Some(0x3fu16)
    } else if t == EV_MSC {
        Some(0x07u16)
    } else if t == EV_SW {
        Some(0x10u16)
    } else if t == EV_LED {
        Some(0x0fu16)
    } else if t == EV_SND {
        Some(0x07u16)
    } else if t == EV_REP {
        Some(0x01u16)
    } else if t == EV_FF {
        Some(0x7fu16)
    } else {
        None
    }
}

/// Whether a code can be registered at all.
pub open spec fn supported(e: EventCode) -> bool {
    match code_max(e.type_) {
        Some(m) => e.code <= m,
        None => false,
    }
}

/// Whether an axis setup names an absolute axis that exists.
pub open spec fn axis_supported(a: AxisSetup) -> bool {
    a.code <= 0x3f
}

/// The type bit is announced for every type but synchronization, which the
/// kernel gives every device.
pub open spec fn has_type_bit(t: u16) -> bool {
    t != EV_SYN
}

/// Code bits are announced for every type but synchronization and
/// autorepeat, whose codes uinput does not take.
pub open spec fn has_code_bit(t: u16) -> bool {
    t != EV_SYN && t != EV_REP
}

/// Whether a code of type `t` stands among `prev`.
pub open spec fn type_seen(prev: Seq<EventCode>, t: u16) -> bool {
    exists|j: int| 0 <= j < prev.len() && prev[j].type_ == t
}

/// What one entry adds to the plan, after the entries `prev`: its type bit
/// the first time the type appears, its code bit the first time the code
/// appears. Repeated entries add nothing.
pub open spec fn entry_requests(prev: Seq<EventCode>, e: EventCode) -> Seq<Request> {
    (if has_type_bit(e.type_) && !type_seen(prev, e.type_) {
        seq![Request::EnableType(e)]
    } else {
        Seq::empty()
    }) + (if has_code_bit(e.type_) && !prev.contains(e) {
        seq![Request::EnableCode(e)]
    } else {
        Seq::empty()
    })
}

/// The requests for a sequence of codes, entry by entry.
pub open spec fn code_requests(s: Seq<EventCode>) -> Seq<Request>
    decreases s.len(),
{
    if s.len() == 0 {
        Seq::empty()
    } else {
        code_requests(s.drop_last()) + entry_requests(s.drop_last(), s.last())
    }
}

/// The full plan: codes, then axes, then the device's identity, then
/// creation.
pub open spec fn plan_of(codes: Seq<EventCode>, axes: Seq<AxisSetup>) -> Seq<Request> {
    code_requests(codes) + axes.map_values(|a: AxisSetup| Request::SetupAxis(a)) + seq![
        Request::Setup,
        Request::Create,
    ]
}

/// The descriptor can be announced: every code and every axis exists.
pub open spec fn descriptor_supported(codes: Seq<EventCode>, axes: Seq<AxisSetup>) -> bool {
    &&& forall|i: int| 0 <= i < codes.len() ==> supported(#[trigger] codes[i])
    &&& forall|i: int| 0 <= i < axes.len() ==> axis_supported(#[trigger] axes[i])
}

/// The error for a descriptor that cannot be announced: the first code that
/// does not exist, else the first axis that does not exist.
pub open spec fn plan_error(codes: Seq<EventCode>, axes: Seq<AxisSetup>, err: DeviceError) -> bool {
    ||| exists|i: int|
        0 <= i < codes.len() && !supported(#[trigger] codes[i]) && (forall|j: int|
            0 <= j < i ==> supported(#[trigger] codes[j])) && err == DeviceError::Unsupported(
            codes[i],
        )
    ||| (forall|j: int| 0 <= j < codes.len() ==> supported(#[trigger] codes[j])) && exists|i: int|
        0 <= i < axes.len() && !axis_supported(#[trigger] axes[i]) && (forall|j: int|
            0 <= j < i ==> axis_supported(#[trigger] axes[j])) && err == DeviceError::Unsupported(
            EventCode { type_: EV_ABS, code: axes[i].code },
        )
}

fn code_max_of(t: u16) -> (r: Option<u16>)
    ensures
        r == code_max(t),
{
    if t == EV_SYN {
        Some(0x0f)
    } else if t == EV_KEY {
        Some(0x2ff)
    } else if t == EV_REL {
        Some(0x0f)
    } else if t == EV_ABS {
        Some(0x3f)
    } else if t == EV_MSC {
        Some(0x07)
    } else if t == EV_SW {
        Some(0x10)
    } else if t == EV_LED {
        Some(0x0f)
    } else if t == EV_SND {
        Some(0x07)
    } else if t == EV_REP {
        Some(0x01)
    } else if t == EV_FF {
        Some(0x7f)
    } else {
        None
    }
}

/// Whether uinput can register this code.
pub fn is_supported(e: EventCode) -> (r: bool)
    ensures
        r == supported(e),
{
    match code_max_of(e.type_) {
        Some(m) => e.code <= m,
        None => false,
    }
}

fn type_seen_before(codes: &Vec<EventCode>, upto: usize, t: u16) -> (r: bool)
    requires
        upto <= codes@.len(),
    ensures
        r == type_seen(codes@.subrange(0, upto as int), t),
{
    let ghost prev = codes@.subrange(0, upto as int);
    let mut j: usize = 0;
    while j < upto
        invariant
            j <= upto <= codes@.len(),
            prev == codes@.subrange(0, upto as int),
            forall|k: int| 0 <= k < j ==> codes@[k].type_ != t,
        decreases upto - j,
    {
        if codes[j].type_ == t {
            assert(prev[j as int].type_ == t);
            return true;
        }
        j = j + 1;
    }
    assert forall|k: int| 0 <= k < prev.len() implies prev[k].type_ != t by {
        assert(prev[k] == codes@[k]);
    }
    false
}

fn code_seen_before(codes: &Vec<EventCode>, upto: usize, e: EventCode) -> (r: bool)
    requires
        upto <= codes@.len(),
    ensures
        r == codes@.subrange(0, upto as int).contains(e),
{
    let ghost prev = codes@.subrange(0, upto as int);
    let mut j: usize = 0;
    while j < upto
        invariant
            j <= upto <= codes@.len(),
            prev == codes@.subrange(0, upto as int),
            forall|k: int| 0 <= k < j ==> codes@[k] != e,
        decreases upto - j,
    {
        if codes[j] == e {
            assert(prev[j as int] == e);
            return true;
        }
        j = j + 1;
    }
    assert forall|k: int| 0 <= k < prev.len() implies prev[k] != e by {
        assert(prev[k] == codes@[k]);
    }
    false
}

impl CapabilityDescriptor {
    /// A descriptor that advertises nothing yet.
    pub fn new() -> (r: CapabilityDescriptor)
        ensures
            r.codes@ == Seq::<EventCode>::empty(),
            r.axes@ == Seq::<AxisSetup>::empty(),
    {
        CapabilityDescriptor { codes: Vec::new(), axes: Vec::new() }
    }

    /// Advertises one more code.
    pub fn enable(&mut self, type_: u16, code: u16)
        ensures
            final(self).codes@ == old(self).codes@.push(EventCode { type_, code }),
            final(self).axes@ == old(self).axes@,
    {
        self.codes.push(EventCode { type_, code });
    }

    /// Advertises an absolute axis with its parameters.
    pub fn enable_axis(&mut self, code: u16, info: AbsInfo)
        ensures
            final(self).codes@ == old(self).codes@.push(EventCode { type_: EV_ABS, code }),
            final(self).axes@ == old(self).axes@.push(AxisSetup { code, info }),
    {
        self.codes.push(EventCode { type_: EV_ABS, code });
        self.axes.push(AxisSetup { code, info });
    }

    /// The requests that announce this descriptor to the kernel, in order,
    /// or the first capability that cannot be announced. Nothing is asked of
    /// the kernel before the whole descriptor has been checked.
    pub fn registration_plan(&self) -> (r: Result<Vec<Request>, DeviceError>)
        ensures
            r is Ok <==> descriptor_supported(self.codes@, self.axes@),
            r matches Ok(p) ==> p@ == plan_of(self.codes@, self.axes@),
            r matches Err(e) ==> plan_error(self.codes@, self.axes@, e),
    {
        let n = self.codes.len();
        let mut i: usize = 0;
        while i < n
            invariant
                n == self.codes@.len(),
                i <= n,
                forall|j: int| 0 <= j < i ==> supported(#[trigger] self.codes@[j]),
            decreases n - i,
        {
            let e = self.codes[i];
            if !is_supported(e) {
                return Err(DeviceError::Unsupported(e));
            }
            i = i + 1;
        }
        let m = self.axes.len();
        let mut k: usize = 0;
        while k < m
            invariant
                m == self.axes@.len(),
                k <= m,
                n == self.codes@.len(),
                forall|j: int| 0 <= j < n ==> supported(#[trigger] self.codes@[j]),
                forall|j: int| 0 <= j < k ==> axis_supported(#[trigger] self.axes@[j]),
            decreases m - k,
        {
            let a = self.axes[k];
            if a.code > 0x3f {
                assert(!axis_supported(self.axes@[k as int]));
                return Err(DeviceError::Unsupported(EventCode { type_: EV_ABS, code: a.code }));
            }
            k = k + 1;
        }
        let mut plan: Vec<Request> = Vec::new();
        let mut i: usize = 0;
        while i < n
            invariant
                n == self.codes@.len(),
                i <= n,
                plan@ == code_requests(self.codes@.subrange(0, i as int)),
            decreases n - i,
        {
            let e = self.codes[i];
            let ghost prev = self.codes@.subrange(0, i as int);
            let ghost before = plan@;
            if e.type_ != EV_SYN && !type_seen_before(&self.codes, i, e.type_) {
                plan.push(Request::EnableType(e));
            }
            if e.type_ != EV_SYN && e.type_ != EV_REP && !code_seen_before(&self.codes, i, e) {
                plan.push(Request::EnableCode(e));
            }
            proof {
                let s = self.codes@.subrange(0, i + 1);
                assert(s.drop_last() =~= prev);
                assert(s.last() == e);
                assert(plan@ =~= before + entry_requests(prev, e));
            }
            i = i + 1;
        }
        assert(self.codes@.subrange(0, n as int) =~= self.codes@);
        let ghost head = plan@;
        let mut k: usize = 0;
        while k < m
            invariant
                m == self.axes@.len(),
                k <= m,
                plan@ == head + self.axes@.subrange(0, k as int).map_values(
                    |a: AxisSetup| Request::SetupAxis(a),
                ),
            decreases m - k,
        {
            plan.push(Request::SetupAxis(self.axes[k]));
            k = k + 1;
            assert(plan@ =~= head + self.axes@.subrange(0, k as int).map_values(
                |a: AxisSetup| Request::SetupAxis(a),
            ));
        }
        assert(self.axes@.subrange(0, m as int) =~= self.axes@);
        plan.push(Request::Setup);
        plan.push(Request::Create);
        assert(plan@ =~= plan_of(self.codes@, self.axes@));
        Ok(plan)
    }
}

} // verus!
