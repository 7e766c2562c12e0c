//! Guest identities: the 128-bit id of a running virtual machine, how it is
//! read from text, and how the running guest is picked out of what the
//! platform enumerates.
use vstd::prelude::*;

verus! {

/// The identity of a running guest, as the 128-bit value of its UUID
/// (most significant byte first).
#[derive(Clone, Copy, Debug, PartialEq, Eq, Structural)]
pub struct VmId {
    pub value: u128,
}

/// The value of the UUID that `s` spells, if it spells one.
pub uninterp spec fn uuid_value(s: Seq<char>) -> Option<u128>;

/// Relies on uuid::Uuid::parse_str (with Uuid::as_u128): whether a text is
/// a UUID, and which, depends on the text alone, and an empty text is none.
#[verifier::external_body]
fn parse_uuid(s: &str) -> (r: Option<u128>)
    ensures
        r == uuid_value(s@),
        s@.len() == 0 ==> r is None,
{
    match uuid::Uuid::parse_str(s) {
        Ok(u) => Some(u.as_u128()),
        Err(_) => None,
    }
}

/// A text that is not a UUID.
#[derive(Clone, Copy, Debug, PartialEq, Eq, Structural)]
pub struct InvalidVmId;

/// Reads a guest identity written as a UUID.
pub fn parse_vm_id(s: &str) -> (r: Result<VmId, InvalidVmId>)
    ensures
        r == (match uuid_value(s@) {
            Some(v) => Ok(VmId { value: v }),
            None => Err(InvalidVmId),
        }),
{
    match parse_uuid(s) {
        Some(v) => Ok(VmId { value: v }),
        None => Err(InvalidVmId),
    }
}

/// One entry of the platform's list of compute systems.
#[derive(Clone, Debug)]
pub struct ComputeSystem {
    pub id: VmId,
    pub system_type: String,
    pub owner: String,
    pub runtime_id: VmId,
    pub state: String,
}

/// The id of the first system owned by the guest subsystem.
pub open spec fn first_guest(s: Seq<ComputeSystem>) -> Option<VmId>
    decreases s.len(),
{
    if s.len() == 0 {
        None
    } else if s[0].owner@ == "WSL"@ {
        Some(s[0].id)
    } else {
        first_guest(s.subrange(1, s.len() as int))
    }
}

proof fn lemma_first_guest_skip(s: Seq<ComputeSystem>, i: int)
    requires
        0 <= i < s.len(),
        s[i].owner@ != "WSL"@,
    ensures
        first_guest(s.subrange(i, s.len() as int)) == first_guest(s.subrange(i + 1, s.len() as int)),
{
    let t = s.subrange(i, s.len() as int);
    assert(t.subrange(1, t.len() as int) =~= s.subrange(i + 1, s.len() as int));
}

/// Picks the running guest out of the enumerated compute systems: the first
/// one whose owner is the guest subsystem.
pub fn find_guest(systems: &Vec<ComputeSystem>) -> (r: Option<VmId>)
    ensures
        r == first_guest(systems@),
{
    let owner = String::from_str("WSL");
    let mut i: usize = 0;
    proof {
        assert(systems@.subrange(0, systems@.len() as int) =~= systems@);
    }
    while i < systems.len()
        invariant
            i <= systems@.len(),
            owner@ == "WSL"@,
            first_guest(systems@) == first_guest(systems@.subrange(i as int, systems@.len() as int)),
        decreases systems.len() - i,
    {
        if systems[i].owner == owner {
            proof {
                let t = systems@.subrange(i as int, systems@.len() as int);
                assert(t[0] == systems@[i as int]);
            }
            return Some(systems[i].id);
        }
        proof {
            lemma_first_guest_skip(systems@, i as int);
        }
        i = i + 1;
    }
    None
}

/// The value of `ComputeSystemType` that marks a guest in the registry.
pub const GUEST_SYSTEM_TYPE: u32 = 2;

/// Judges one key of the registry's list of compute systems: its name is
/// the guest's id when its type is the guest type and the name is a UUID.
pub fn registry_match(key: &str, system_type: Option<u32>) -> (r: Option<VmId>)
    ensures
        r == (if system_type == Some(GUEST_SYSTEM_TYPE) {
            match uuid_value(key@) {
                Some(v) => Some(VmId { value: v }),
                None => None,
            }
        } else {
            None
        }),
{
    match system_type {
        Some(t) => {
            if t == GUEST_SYSTEM_TYPE {
                match parse_uuid(key) {
                    Some(v) => Some(VmId { value: v }),
                    None => None,
                }
            } else {
                None
            }
        },
        None => None,
    }
}

/// The service id template `00000000-facb-11e6-bd58-64006a7986d3`; a
/// service's id is the template with its port in the first 32 bits.
pub const SERVICE_TEMPLATE: u128 = 0x0000_0000_facb_11e6_bd58_6400_6a79_86d3;

pub open spec fn service_id_of(port: u32) -> u128 {
    (port as int * 0x1_0000_0000_0000_0000_0000_0000 + SERVICE_TEMPLATE) as u128
}

/// The hypervisor-socket service id under which `port` listens.
pub fn service_id(port: u32) -> (r: VmId)
    ensures
        r.value == service_id_of(port),
{
    let v: u128 = (port as u128) * 0x1_0000_0000_0000_0000_0000_0000u128 + SERVICE_TEMPLATE;
    VmId { value: v }
}

/// The platform's result code for an enumeration refused for lack of
/// rights (`HCS_E_ACCESS_DENIED`, 0x8037011B).
pub const HCS_ACCESS_DENIED: i32 = -2143878885;

/// What an enumeration's result code says.
#[derive(Clone, Copy, Debug, PartialEq, Eq, Structural)]
pub enum HcsStatus {
    Success,
    /// Refused for lack of rights: the registry is consulted instead.
    AccessDenied,
    /// Any other failure, with its code.
    Failed(i32),
}

/// Classifies an enumeration's result code.
pub fn classify_hresult(hr: i32) -> (r: HcsStatus)
    ensures
        hr == 0 <==> r == HcsStatus::Success,
        hr == HCS_ACCESS_DENIED <==> r == HcsStatus::AccessDenied,
        hr != 0 && hr != HCS_ACCESS_DENIED ==> r == HcsStatus::Failed(hr),
{
    if hr == 0 {
        HcsStatus::Success
    } else if hr == HCS_ACCESS_DENIED {
        HcsStatus::AccessDenied
    } else {
        HcsStatus::Failed(hr)
    }
}

} // verus!
