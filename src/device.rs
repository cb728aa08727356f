//! Device resolution: binding a logical selection ("Default", or part of a
//! device name) to a capture or render device, and checking that the two
//! devices of a pair can run as one session.

use crate::error::{ConfigIssue, ErrorKind};
use crate::params::DEFAULT_DEVICE;
use vstd::prelude::*;

verus! {

/// The channel count every stream must have.
pub const STEREO: u16 = 2;

/// The part a device plays in a session.
#[derive(Clone, Copy, Debug, PartialEq, Eq, Structural)]
pub enum Role {
    Capture,
    Render,
}

/// The device a selection binds to.
#[derive(Clone, Copy, Debug, PartialEq, Eq, Structural)]
pub enum DeviceChoice {
    /// The platform's default device for the role.
    PlatformDefault,
    /// The device at this position of the enumeration.
    Listed(usize),
}

/// A device's stream format.
#[derive(Clone, Copy, Debug, PartialEq, Eq, Structural)]
pub struct StreamFormat {
    pub sample_rate: u32,
    pub channels: u16,
}

/// The error for a role whose device cannot be found.
pub open spec fn spec_absence(role: Role) -> ErrorKind {
    match role {
        Role::Capture => ErrorKind::NoInputDevice,
        Role::Render => ErrorKind::NoOutputDevice,
    }
}

pub fn absence(role: Role) -> (r: ErrorKind)
    ensures
        r == spec_absence(role),
{
    match role {
        Role::Capture => ErrorKind::NoInputDevice,
        Role::Render => ErrorKind::NoOutputDevice,
    }
}

/// `pat` occurs in `hay` starting at position `i`.
pub open spec fn occurs_at(hay: Seq<char>, pat: Seq<char>, i: int) -> bool {
    0 <= i && i + pat.len() <= hay.len() && hay.subrange(i, i + pat.len()) == pat
}

/// `pat` is a substring of `hay`.
pub open spec fn spec_contains(hay: Seq<char>, pat: Seq<char>) -> bool {
    exists|i: int| occurs_at(hay, pat, i)
}

/// A device name that could be read, and that contains the selection.
pub open spec fn name_matches(name: Option<String>, selection: Seq<char>) -> bool {
    name matches Some(n) && spec_contains(n@, selection)
}

/// The position of the first device whose name matches the selection.
pub open spec fn is_first_match(names: Seq<Option<String>>, selection: Seq<char>, i: int) -> bool {
    &&& 0 <= i < names.len()
    &&& name_matches(names[i], selection)
    &&& forall|j: int| 0 <= j < i ==> !name_matches(#[trigger] names[j], selection)
}

pub open spec fn spec_resolve(
    selection: Seq<char>,
    role: Role,
    has_default: bool,
    names: Seq<Option<String>>,
) -> Result<DeviceChoice, ErrorKind> {
    if selection == DEFAULT_DEVICE@ {
        if has_default {
            Ok(DeviceChoice::PlatformDefault)
        } else {
            Err(spec_absence(role))
        }
    } else if exists|i: int| is_first_match(names, selection, i) {
        Ok(DeviceChoice::Listed((choose|i: int| is_first_match(names, selection, i)) as usize))
    } else {
        Err(spec_absence(role))
    }
}

/// The characters of a string, one per element.
fn chars_of(s: &str) -> (r: Vec<char>)
    ensures
        r@ == s@,
{
    let n = s.unicode_len();
    let mut v: Vec<char> = Vec::new();
    let mut i: usize = 0;
    while i < n
        invariant
            n == s@.len(),
            i <= n,
            v@ == s@.take(i as int),
        decreases n - i,
    {
        v.push(s.get_char(i));
        assert(v@ =~= s@.take(i + 1));
        i = i + 1;
    }
    assert(v@ =~= s@);
    v
}

/// Whether `pat` occurs in `hay` at position `i`.
fn occurs_at_exec(hay: &Vec<char>, pat: &Vec<char>, i: usize) -> (r: bool)
    requires
        i + pat.len() <= hay.len(),
    ensures
        r == occurs_at(hay@, pat@, i as int),
{
    let mut k: usize = 0;
    while k < pat.len()
        invariant
            i + pat.len() <= hay.len(),
            k <= pat.len(),
            forall|j: int| 0 <= j < k ==> hay@[i + j] == pat@[j],
        decreases pat.len() - k,
    {
        if hay[i + k] != pat[k] {
            assert(hay@.subrange(i as int, i + pat.len())[k as int] != pat@[k as int]);
            return false;
        }
        k = k + 1;
    }
    assert(hay@.subrange(i as int, i + pat.len()) =~= pat@);
    true
}

/// Whether `pat` occurs anywhere in `hay`.
fn contains_exec(hay: &Vec<char>, pat: &Vec<char>) -> (r: bool)
    ensures
        r == spec_contains(hay@, pat@),
{
    if pat.len() > hay.len() {
        return false;
    }
    let last = hay.len() - pat.len();
    let mut i: usize = 0;
    loop
        invariant
            last + pat.len() == hay.len(),
            i <= last,
            forall|j: int| 0 <= j < i ==> !occurs_at(hay@, pat@, j),
        decreases last - i,
    {
        if occurs_at_exec(hay, pat, i) {
            return true;
        }
        if i == last {
            return false;
        }
        i = i + 1;
    }
}

/// Whether the device name contains the selection; a name that could not be
/// read matches nothing.
pub fn device_by_name(name: &Option<String>, selection: &String) -> (r: bool)
    ensures
        r == name_matches(*name, selection@),
{
    match name {
        Some(n) => {
            let hay = chars_of(n.as_str());
            let pat = chars_of(selection.as_str());
            contains_exec(&hay, &pat)
        },
        None => false,
    }
}

/// Binds a selection to a device of `role`. "Default" binds to the platform
/// default, if there is one; any other selection binds to the first of the
/// enumerated devices (`names`, in enumeration order) whose name contains it.
/// When nothing binds, the error is the role's absence error.
pub fn resolve_device(
    selection: &String,
    role: Role,
    has_default: bool,
    names: &Vec<Option<String>>,
) -> (r: Result<DeviceChoice, ErrorKind>)
    ensures
        r == spec_resolve(selection@, role, has_default, names@),
{
    let default_name = String::from_str(DEFAULT_DEVICE);
    if selection.eq(&default_name) {
        if has_default {
            Ok(DeviceChoice::PlatformDefault)
        } else {
            Err(absence(role))
        }
    } else {
        let mut i: usize = 0;
        while i < names.len()
            invariant
                i <= names.len(),
                selection@ != DEFAULT_DEVICE@,
                forall|j: int| 0 <= j < i ==> !name_matches(#[trigger] names@[j], selection@),
            decreases names.len() - i,
        {
            if device_by_name(&names[i], selection) {
                proof {
                    assert(is_first_match(names@, selection@, i as int));
                    let c = choose|j: int| is_first_match(names@, selection@, j);
                    assert(is_first_match(names@, selection@, c));
                    if c < i {
                        assert(!name_matches(names@[c], selection@));
                    }
                    if c > i {
                        assert(!name_matches(names@[i as int], selection@));
                    }
                }
                return Ok(DeviceChoice::Listed(i));
            }
            i = i + 1;
        }
        Err(absence(role))
    }
}

/// Binds both selections of a session, the input device first: the first
/// failure is the result.
pub fn resolve_devices(
    input_selection: &String,
    has_default_input: bool,
    input_names: &Vec<Option<String>>,
    output_selection: &String,
    has_default_output: bool,
    output_names: &Vec<Option<String>>,
) -> (r: Result<(DeviceChoice, DeviceChoice), ErrorKind>)
    ensures
        ({
            let i = spec_resolve(input_selection@, Role::Capture, has_default_input, input_names@);
            let o = spec_resolve(output_selection@, Role::Render, has_default_output, output_names@);
            &&& i matches Err(e) ==> r == Err::<(DeviceChoice, DeviceChoice), ErrorKind>(e)
            &&& i matches Ok(ic) ==> (o matches Err(e) ==> r == Err::<
                (DeviceChoice, DeviceChoice),
                ErrorKind,
            >(e))
            &&& i matches Ok(ic) ==> (o matches Ok(oc) ==> r == Ok::<
                (DeviceChoice, DeviceChoice),
                ErrorKind,
            >((ic, oc)))
        }),
{
    let input = match resolve_device(input_selection, Role::Capture, has_default_input, input_names) {
        Ok(c) => c,
        Err(e) => return Err(e),
    };
    let output = match resolve_device(output_selection, Role::Render, has_default_output, output_names) {
        Ok(c) => c,
        Err(e) => return Err(e),
    };
    Ok((input, output))
}

pub open spec fn spec_check_formats(capture: StreamFormat, render: StreamFormat) -> Result<u32, ErrorKind> {
    if capture.sample_rate != render.sample_rate {
        Err(ErrorKind::InvalidConfiguration(ConfigIssue::SampleRateMismatch))
    } else if capture.channels != STEREO || render.channels != STEREO {
        Err(ErrorKind::InvalidConfiguration(ConfigIssue::NotStereo))
    } else {
        Ok(capture.sample_rate)
    }
}

/// Checks that a capture and a render format can run as one session: equal
/// sample rates (there is no resampling) and two channels on both sides. On
/// success gives the session's sample rate. Nothing is opened before this
/// check passes.
pub fn check_formats(capture: StreamFormat, render: StreamFormat) -> (r: Result<u32, ErrorKind>)
    ensures
        r == spec_check_formats(capture, render),
        capture.sample_rate != render.sample_rate ==> r matches Err(
            ErrorKind::InvalidConfiguration(_),
        ),
{
    if capture.sample_rate != render.sample_rate {
        Err(ErrorKind::InvalidConfiguration(ConfigIssue::SampleRateMismatch))
    } else if capture.channels != STEREO || render.channels != STEREO {
        Err(ErrorKind::InvalidConfiguration(ConfigIssue::NotStereo))
    } else {
        Ok(capture.sample_rate)
    }
}

/// The position of the entry equal to `selected`, the last one if several
/// are: the entry a device list shows as selected.
pub fn selected_position(devices: &Vec<String>, selected: &String) -> (r: Option<usize>)
    ensures
        r matches Some(i) ==> i < devices.len() && devices@[i as int]@ == selected@ && forall|
            j: int,
        |
            i < j < devices.len() ==> #[trigger] devices@[j]@ != selected@,
        r is None ==> forall|j: int| 0 <= j < devices.len() ==> #[trigger] devices@[j]@ != selected@,
{
    let mut found: Option<usize> = None;
    let mut i: usize = 0;
    while i < devices.len()
        invariant
            i <= devices.len(),
            found matches Some(k) ==> k < i && devices@[k as int]@ == selected@ && forall|j: int|
                k < j < i ==> #[trigger] devices@[j]@ != selected@,
            found is None ==> forall|j: int| 0 <= j < i ==> #[trigger] devices@[j]@ != selected@,
        decreases devices.len() - i,
    {
        if devices[i].eq(selected) {
            found = Some(i);
        }
        i = i + 1;
    }
    found
}

} // verus!
