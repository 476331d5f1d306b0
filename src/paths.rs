//! Where a created device can be found: its sysfs path and its device node.
//! Paths are kept as the bytes the kernel gave, with no assumption about
//! their encoding.

use vstd::prelude::*;

verus! {

/// The directory under which uinput devices appear in sysfs,
/// `/sys/devices/virtual/input/`.
pub open spec fn sys_prefix() -> Seq<u8> {
    seq![
        47u8, 115u8, 121u8, 115u8, 47u8, 100u8, 101u8, 118u8, 105u8, 99u8, 101u8, 115u8, 47u8, 118u8, 105u8,
        114u8, 116u8, 117u8, 97u8, 108u8, 47u8, 105u8, 110u8, 112u8, 117u8, 116u8, 47u8,
    ]
}

/// The directory that holds event device nodes, `/dev/input/`.
pub open spec fn dev_prefix() -> Seq<u8> {
    seq![47u8, 100u8, 101u8, 118u8, 47u8, 105u8, 110u8, 112u8, 117u8, 116u8, 47u8]
}

/// The name that every event node starts with, `event`.
pub open spec fn event_stem() -> Seq<u8> {
    seq![101u8, 118u8, 101u8, 110u8, 116u8]
}

/// Whether a directory entry names an event node.
pub open spec fn is_event_entry(name: Seq<u8>) -> bool {
    name.len() >= 5 && name.subrange(0, 5) == event_stem()
}

/// The device node of the first event entry among `entries`, if any.
pub open spec fn first_event_node(entries: Seq<Seq<u8>>) -> Option<Seq<u8>>
    decreases entries.len(),
{
    if entries.len() == 0 {
        None
    } else if is_event_entry(entries[0]) {
        Some(dev_prefix() + entries[0])
    } else {
        first_event_node(entries.drop_first())
    }
}

/// The device node for a syspath whose directory holds `entries`: none
/// without a syspath, since the node is found through it.
pub open spec fn devnode_of(syspath: Option<Seq<u8>>, entries: Seq<Seq<u8>>) -> Option<Seq<u8>> {
    match syspath {
        Some(_) => first_event_node(entries),
        None => None,
    }
}

/// The bytes of an optional path.
pub open spec fn opt_bytes(o: Option<Vec<u8>>) -> Option<Seq<u8>> {
    match o {
        Some(v) => Some(v@),
        None => None,
    }
}

fn append(out: &mut Vec<u8>, b: &Vec<u8>)
    ensures
        final(out)@ == old(out)@ + b@,
{
    let mut i: usize = 0;
    while i < b.len()
        invariant
            i <= b@.len(),
            out@ == old(out)@ + b@.subrange(0, i as int),
        decreases b@.len() - i,
    {
        out.push(b[i]);
        i = i + 1;
        assert(out@ =~= old(out)@ + b@.subrange(0, i as int));
    }
    assert(b@.subrange(0, b@.len() as int) =~= b@);
}

/// The sysfs path of the input device that the kernel named `sysname`.
pub fn syspath_for(sysname: &Vec<u8>) -> (r: Vec<u8>)
    ensures
        r@ == sys_prefix() + sysname@,
{
    let mut out: Vec<u8> = vec![
        47u8, 115u8, 121u8, 115u8, 47u8, 100u8, 101u8, 118u8, 105u8, 99u8, 101u8, 115u8, 47u8, 118u8, 105u8,
        114u8, 116u8, 117u8, 97u8, 108u8, 47u8, 105u8, 110u8, 112u8, 117u8, 116u8, 47u8,
    ];
    assert(out@ =~= sys_prefix());
    append(&mut out, sysname);
    out
}

/// Whether a directory entry names an event node.
pub fn is_event_name(name: &Vec<u8>) -> (r: bool)
    ensures
        r == is_event_entry(name@),
{
    if name.len() < 5 {
        return false;
    }
    let r = name[0] == 101u8 && name[1] == 118u8 && name[2] == 101u8 && name[3] == 110u8 && name[4]
        == 116u8;
    assert(r == (name@.subrange(0, 5) =~= event_stem()));
    r
}

/// The device node named by the first event entry of a device's sysfs
/// directory, or `None` when the directory holds none.
pub fn devnode_from_entries(entries: &Vec<Vec<u8>>) -> (r: Option<Vec<u8>>)
    ensures
        opt_bytes(r) == first_event_node(entries.deep_view()),
{
    let ghost all = entries.deep_view();
    assert(all.subrange(0, all.len() as int) =~= all);
    let mut i: usize = 0;
    while i < entries.len()
        invariant
            i <= entries@.len(),
            all == entries.deep_view(),
            all.len() == entries@.len(),
            first_event_node(all) == first_event_node(all.subrange(i as int, all.len() as int)),
        decreases entries@.len() - i,
    {
        let ghost rest = all.subrange(i as int, all.len() as int);
        assert(rest[0] == entries@[i as int]@);
        if is_event_name(&entries[i]) {
            let mut out: Vec<u8> = vec![47u8, 100u8, 101u8, 118u8, 47u8, 105u8, 110u8, 112u8, 117u8, 116u8, 47u8];
            assert(out@ =~= dev_prefix());
            append(&mut out, &entries[i]);
            return Some(out);
        }
        assert(rest.drop_first() =~= all.subrange(i + 1, all.len() as int));
        i = i + 1;
    }
    assert(all.subrange(i as int, all.len() as int).len() == 0);
    None
}

/// The name that every input device directory starts with, `input`.
pub open spec fn input_stem() -> Seq<u8> {
    seq![105u8, 110u8, 112u8, 117u8, 116u8]
}

/// One input device directory under the sysfs directory of uinput devices:
/// its name, the device name it reports, and when it was created.
pub struct SysfsEntry {
    pub sysname: Vec<u8>,
    pub name: Vec<u8>,
    pub created: u64,
}

/// Whether an entry could be the device named `name` created at `since`
/// or later.
pub open spec fn entry_matches(e: SysfsEntry, name: Seq<u8>, since: u64) -> bool {
    &&& e.sysname@.len() >= 5
    &&& e.sysname@.subrange(0, 5) == input_stem()
    &&& e.name@ == name
    &&& e.created >= since
}

/// Whether exactly one entry, the one at `i`, matches.
pub open spec fn only_match(entries: Seq<SysfsEntry>, name: Seq<u8>, since: u64, i: int) -> bool {
    &&& 0 <= i < entries.len()
    &&& entry_matches(entries[i], name, since)
    &&& forall|j: int|
        0 <= j < entries.len() && entry_matches(#[trigger] entries[j], name, since) ==> j == i
}

fn bytes_equal(a: &Vec<u8>, b: &Vec<u8>) -> (r: bool)
    ensures
        r == (a@ == b@),
{
    if a.len() != b.len() {
        return false;
    }
    let mut i: usize = 0;
    while i < a.len()
        invariant
            a@.len() == b@.len(),
            i <= a@.len(),
            a@.subrange(0, i as int) == b@.subrange(0, i as int),
        decreases a@.len() - i,
    {
        if a[i] != b[i] {
            assert(a@.subrange(0, i + 1)[i as int] != b@.subrange(0, i + 1)[i as int]);
            return false;
        }
        i = i + 1;
        assert(a@.subrange(0, i as int) =~= b@.subrange(0, i as int));
    }
    assert(a@ =~= a@.subrange(0, i as int));
    assert(b@ =~= b@.subrange(0, i as int));
    true
}

fn matches_entry(e: &SysfsEntry, name: &Vec<u8>, since: u64) -> (r: bool)
    ensures
        r == entry_matches(*e, name@, since),
{
    if e.sysname.len() < 5 || e.created < since {
        return false;
    }
    let stem = e.sysname[0] == 105u8 && e.sysname[1] == 110u8 && e.sysname[2] == 112u8
        && e.sysname[3] == 117u8 && e.sysname[4] == 116u8;
    assert(stem == (e.sysname@.subrange(0, 5) =~= input_stem()));
    stem && bytes_equal(&e.name, name)
}

/// A best-effort guess at the sysfs name of a device when the kernel does
/// not report it: the one input device named `name` and created at `since`
/// or later. With no such device, or more than one, the guess would be
/// unreliable and there is none.
pub fn guess_sysname(name: &Vec<u8>, since: u64, entries: &Vec<SysfsEntry>) -> (r: Option<Vec<u8>>)
    ensures
        r is Some <==> exists|i: int| only_match(entries@, name@, since, i),
        forall|i: int| only_match(entries@, name@, since, i) ==> opt_bytes(r) == Some(entries@[i].sysname@),
{
    let mut found: Option<usize> = None;
    let mut i: usize = 0;
    while i < entries.len()
        invariant
            i <= entries@.len(),
            match found {
                None => forall|j: int| 0 <= j < i ==> !entry_matches(#[trigger] entries@[j], name@, since),
                Some(k) => k < i && entry_matches(entries@[k as int], name@, since)
                    && forall|j: int| 0 <= j < i && entry_matches(#[trigger] entries@[j], name@, since) ==> j == k,
            },
        decreases entries@.len() - i,
    {
        if matches_entry(&entries[i], name, since) {
            match found {
                Some(k) => {
                    assert(!only_match(entries@, name@, since, k as int));
                    assert forall|m: int| !only_match(entries@, name@, since, m) by {
                        if only_match(entries@, name@, since, m) {
                            assert(entry_matches(entries@[k as int], name@, since));
                            assert(entry_matches(entries@[i as int], name@, since));
                        }
                    }
                    return None;
                },
                None => {
                    found = Some(i);
                },
            }
        }
        i = i + 1;
    }
    match found {
        None => {
            assert forall|m: int| !only_match(entries@, name@, since, m) by {
                if only_match(entries@, name@, since, m) {
                    assert(entry_matches(entries@[m], name@, since));
                }
            }
            None
        },
        Some(k) => {
            assert(only_match(entries@, name@, since, k as int));
            let s = &entries[k].sysname;
            let mut out: Vec<u8> = Vec::new();
            append(&mut out, s);
            assert(out@ =~= s@);
            Some(out)
        },
    }
}

} // verus!
