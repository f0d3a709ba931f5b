//! Translation of the platform's return conventions into typed results.
//!
//! The window system signals failure three ways: a boolean return whose real
//! cause sits in a separate last-error slot, a pointer return where null means
//! failure, and a status code that is itself the error. All three are
//! normalized here into `SysResult`, a success/failure outcome carrying the
//! platform's numeric cause. The last-error code is something only the
//! platform knows, so it enters each translation as a plain argument.

#![allow(non_snake_case)]

use vstd::prelude::*;
use crate::co;

verus! {

/// A system error code, as the platform's last-error query reports it.
#[allow(non_camel_case_types)]
#[derive(Clone, Copy, Debug, PartialEq, Eq, Structural, Hash)]
pub struct ERROR(pub u32);

/// Outcome of a system call: success, or the platform's numeric cause.
pub type SysResult<T> = Result<T, ERROR>;

/// If the boolean-convention return is zero, yields the queried last error,
/// otherwise success.
pub fn bool_to_sysresult(expr: i32, last_error: ERROR) -> (r: SysResult<()>)
    ensures
        expr == 0 ==> r == Err::<(), ERROR>(last_error),
        expr != 0 ==> r == Ok::<(), ERROR>(()),
{
    match expr {
        0 => Err(last_error),
        _ => Ok(()),
    }
}

/// If the pointer-convention return is null, yields the queried last error,
/// otherwise the pointer value itself.
pub fn ptr_to_sysresult(ptr: usize, last_error: ERROR) -> (r: SysResult<usize>)
    ensures
        ptr == 0 ==> r == Err::<usize, ERROR>(last_error),
        ptr != 0 ==> r == Ok::<usize, ERROR>(ptr),
{
    if ptr == 0 {
        Err(last_error)
    } else {
        Ok(ptr)
    }
}

/// If the status-code return is the success code, yields success, otherwise
/// the code itself as the error.
pub fn error_to_sysresult(lstatus: i32) -> (r: SysResult<()>)
    ensures
        lstatus == co::SUCCESS ==> r == Ok::<(), ERROR>(()),
        lstatus != co::SUCCESS ==> r == Err::<(), ERROR>(ERROR(lstatus as u32)),
{
    if lstatus == 0 {
        Ok(())
    } else {
        Err(ERROR(lstatus as u32))
    }
}

/// If the value is the all-ones failure marker, yields the queried last
/// error, otherwise the value itself.
pub fn minus1_as_error(dword: u32, last_error: ERROR) -> (r: SysResult<u32>)
    ensures
        dword == u32::MAX ==> r == Err::<u32, ERROR>(last_error),
        dword != u32::MAX ==> r == Ok::<u32, ERROR>(dword),
{
    if dword == u32::MAX {
        Err(last_error)
    } else {
        Ok(dword)
    }
}

/// Whether a resource reference is a small integer ordinal rather than a
/// pointer to a name.
pub fn IS_INTRESOURCE(val: usize) -> (r: bool)
    ensures
        r == (val < 0x1_0000),
{
    val < 0x1_0000
}

/// Packs an integer ordinal into the pointer-sized resource reference that
/// the platform's creation calls accept: the low 16 bits of the value.
pub fn MAKEINTRESOURCE(val: isize) -> (r: usize)
    ensures
        r == (val as u16) as usize,
{
    (val as u16) as usize
}

/// Converts a string to a single-byte encoding: the low byte of each
/// character, with a terminating null appended.
pub fn str_to_iso88591(s: &str) -> (r: Vec<u8>)
    ensures
        r@.len() == s@.len() + 1,
        forall|i: int| 0 <= i < s@.len() ==> r@[i] == s@[i] as u8,
        r@[s@.len() as int] == 0u8,
{
    let n = s.unicode_len();
    let mut out: Vec<u8> = Vec::new();
    let mut i: usize = 0;
    while i < n
        invariant
            i <= n,
            n == s@.len(),
            out@.len() == i,
            forall|j: int| 0 <= j < i ==> out@[j] == s@[j] as u8,
        decreases n - i,
    {
        let c = s.get_char(i);
        out.push(c as u8);
        i = i + 1;
    }
    out.push(0);
    out
}

} // verus!
