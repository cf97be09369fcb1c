//! Ioctls as the control plane writes them, above all those that read and
//! write the firmware's named variables.
//!
//! A variable is read and written through two ioctls of its own. Their
//! payload starts with the name of the variable and a NUL byte; the value
//! follows.

use crate::bytes::{append_bytes, append_zeros, get_u32, le32, le32_value, put_u32, zeros};
use crate::consts::{IOCTL_CMD_GET_VAR, IOCTL_CMD_SET_VAR};
use crate::ioctl::{IoctlRequest, IoctlRequestView, IoctlType};
use vstd::prelude::*;
use vstd::string::StringSliceAdditionalSpecFns;

verus! {

/// Most bytes that the payload of an ordinary variable may have, name and
/// NUL byte included.
pub const IOVAR_BUF_SIZE: usize = 64;

/// The payload that names a variable and gives it a value: the name, a NUL
/// byte, the value.
pub open spec fn iovar_payload(name: Seq<u8>, val: Seq<u8>) -> Seq<u8> {
    name + seq![0u8] + val
}

/// The ioctl that writes `val` to the variable `name`.
pub open spec fn set_var(name: Seq<u8>, val: Seq<u8>) -> IoctlRequestView {
    IoctlRequestView {
        kind: IoctlType::Write,
        cmd: IOCTL_CMD_SET_VAR,
        iface: 0,
        buf: iovar_payload(name, val),
    }
}

/// The ioctl that writes the 32-bit value `val` to the variable `name`.
pub open spec fn set_var_u32(name: Seq<u8>, val: u32) -> IoctlRequestView {
    set_var(name, le32(val))
}

/// The ioctl that writes two 32-bit values to the variable `name`.
pub open spec fn set_var_u32x2(name: Seq<u8>, val1: u32, val2: u32) -> IoctlRequestView {
    set_var(name, le32(val1) + le32(val2))
}

/// The ioctl that reads `len` bytes of the variable `name`: the name, a NUL
/// byte, and zeros up to `len` bytes where name and NUL byte are fewer.
pub open spec fn get_var(name: Seq<u8>, len: int) -> IoctlRequestView {
    IoctlRequestView {
        kind: IoctlType::Read,
        cmd: IOCTL_CMD_GET_VAR,
        iface: 0,
        buf: iovar_payload(name, zeros(len - name.len() - 1)),
    }
}

/// The ioctl `cmd` that writes the 32-bit value `val`.
pub open spec fn set_u32(cmd: u32, iface: u32, val: u32) -> IoctlRequestView {
    IoctlRequestView { kind: IoctlType::Write, cmd, iface, buf: le32(val) }
}

/// The ioctl that writes `val` to the variable `name`, for a payload of at
/// most `BUFSIZE` bytes.
pub fn set_iovar_v<const BUFSIZE: usize>(name: &str, val: &[u8]) -> (r: IoctlRequest)
    requires
        name.spec_bytes().len() + 1 + val@.len() <= BUFSIZE,
    ensures
        r@ == set_var(name.spec_bytes(), val@),
{
    let mut buf: Vec<u8> = Vec::new();
    append_bytes(&mut buf, name.as_bytes());
    buf.push(0);
    append_bytes(&mut buf, val);
    assert(buf@ =~= iovar_payload(name.spec_bytes(), val@));
    IoctlRequest { kind: IoctlType::Write, cmd: IOCTL_CMD_SET_VAR, iface: 0, buf }
}

/// The ioctl that writes `val` to the variable `name`.
pub fn set_iovar(name: &str, val: &[u8]) -> (r: IoctlRequest)
    requires
        name.spec_bytes().len() + 1 + val@.len() <= IOVAR_BUF_SIZE,
    ensures
        r@ == set_var(name.spec_bytes(), val@),
{
    set_iovar_v::<IOVAR_BUF_SIZE>(name, val)
}

/// The four bytes of `val`, least significant first.
fn u32_bytes(val: u32) -> (r: [u8; 4])
    ensures
        r@ == le32(val),
{
    let mut r: [u8; 4] = [0; 4];
    put_u32(&mut r, 0, val);
    assert(r@ =~= le32(val));
    r
}

/// The ioctl that writes the 32-bit value `val` to the variable `name`.
pub fn set_iovar_u32(name: &str, val: u32) -> (r: IoctlRequest)
    requires
        name.spec_bytes().len() + 5 <= IOVAR_BUF_SIZE,
    ensures
        r@ == set_var_u32(name.spec_bytes(), val),
{
    let bytes: [u8; 4] = u32_bytes(val);
    set_iovar(name, &bytes)
}

/// The ioctl that writes two 32-bit values to the variable `name`.
pub fn set_iovar_u32x2(name: &str, val1: u32, val2: u32) -> (r: IoctlRequest)
    requires
        name.spec_bytes().len() + 9 <= IOVAR_BUF_SIZE,
    ensures
        r@ == set_var_u32x2(name.spec_bytes(), val1, val2),
{
    let mut buf: [u8; 8] = [0; 8];
    put_u32(&mut buf, 0, val1);
    put_u32(&mut buf, 4, val2);
    assert(buf@ =~= le32(val1) + le32(val2));
    set_iovar(name, &buf)
}

/// The ioctl that reads the variable `name` into a buffer of `res_len`
/// bytes.
pub fn get_iovar(name: &str, res_len: usize) -> (r: IoctlRequest)
    requires
        name.spec_bytes().len() + 1 <= IOVAR_BUF_SIZE,
        res_len <= IOVAR_BUF_SIZE,
    ensures
        r@ == get_var(name.spec_bytes(), res_len as int),
{
    let mut buf: Vec<u8> = Vec::new();
    append_bytes(&mut buf, name.as_bytes());
    buf.push(0);
    let used: usize = name.len() + 1;
    let fill: usize = if res_len > used {
        res_len - used
    } else {
        0
    };
    append_zeros(&mut buf, fill);
    assert(buf@ =~= get_var(name.spec_bytes(), res_len as int).buf);
    IoctlRequest { kind: IoctlType::Read, cmd: IOCTL_CMD_GET_VAR, iface: 0, buf }
}

/// Copies the response to [`get_iovar`] into `res`, as far as both reach,
/// and returns how many bytes that were.
pub fn get_iovar_response(response: &[u8], res: &mut [u8]) -> (n: usize)
    ensures
        n == if response@.len() < old(res)@.len() {
            response@.len()
        } else {
            old(res)@.len()
        },
        final(res)@ == response@.subrange(0, n as int) + old(res)@.subrange(
            n as int,
            old(res)@.len() as int,
        ),
{
    let n: usize = if response.len() < res.len() {
        response.len()
    } else {
        res.len()
    };
    let mut i: usize = 0;
    while i < n
        invariant
            i <= n,
            n <= response@.len(),
            n <= res@.len(),
            res@.len() == old(res)@.len(),
            forall|j: int|
                0 <= j < res@.len() ==> res@[j] == if j < i {
                    response@[j]
                } else {
                    old(res)@[j]
                },
        decreases n - i,
    {
        res[i] = response[i];
        i += 1;
    }
    assert(res@ =~= response@.subrange(0, n as int) + old(res)@.subrange(
        n as int,
        old(res)@.len() as int,
    ));
    n
}

/// The ioctl that reads the 32-bit variable `name`.
pub fn get_iovar_u32(name: &str) -> (r: IoctlRequest)
    requires
        name.spec_bytes().len() + 1 <= IOVAR_BUF_SIZE,
    ensures
        r@ == get_var(name.spec_bytes(), 4),
{
    get_iovar(name, 4)
}

/// The value that the response to [`get_iovar_u32`] holds: its first four
/// bytes, where it has as many.
pub fn iovar_u32(response: &[u8]) -> (r: Option<u32>)
    ensures
        r == if response@.len() >= 4 {
            Some(le32_value(response@.subrange(0, 4)))
        } else {
            None::<u32>
        },
{
    if response.len() >= 4 {
        Some(get_u32(response, 0))
    } else {
        None
    }
}

/// The ioctl `cmd` that writes the 32-bit value `val`.
pub fn ioctl_set_u32(cmd: u32, iface: u32, val: u32) -> (r: IoctlRequest)
    ensures
        r@ == set_u32(cmd, iface, val),
{
    let bytes: [u8; 4] = u32_bytes(val);
    IoctlRequest::new(IoctlType::Write, cmd, iface, &bytes)
}

} // verus!
