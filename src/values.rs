//! Fixed values, fixed-size arrays and capacity rules.
use vstd::prelude::*;

verus! {

/// The capacity handed out when nothing is requested.
pub const BASE_CAPACITY: usize = 128;

/// How much a requested capacity is enlarged.
pub const GROWTH_FACTOR: usize = 2;

/// The capacity to reserve for `requested_size` items: the base capacity
/// for none, twice the request otherwise. The doubled request must fit in a
/// `usize`.
pub fn calculate_dynamic_capacity(requested_size: usize) -> (c: usize)
    requires
        requested_size * GROWTH_FACTOR <= usize::MAX,
    ensures
        c == (if requested_size == 0 {
            BASE_CAPACITY as int
        } else {
            requested_size * GROWTH_FACTOR
        }),
{
    if requested_size == 0 {
        return BASE_CAPACITY;
    }
    requested_size * GROWTH_FACTOR
}

/// The status line for a success flag.
pub fn get_status_message(is_ok: bool) -> (m: &'static str)
    ensures
        m@ == (if is_ok {
            "Status: OK"@
        } else {
            "Status: ERROR"@
        }),
{
    if is_ok {
        "Status: OK"
    } else {
        "Status: ERROR"
    }
}

/// Five bytes, the first `size` of them (all five if `size` is larger) set
/// to `fill_value` and the rest zero.
pub fn create_filled_array(fill_value: u8, size: usize) -> (arr: [u8; 5])
    ensures
        forall|i: int| 0 <= i < 5 ==> #[trigger] arr@[i] == (if i < size {
            fill_value
        } else {
            0u8
        }),
{
    let mut arr: [u8; 5] = [0; 5];
    let mut i: usize = 0;
    while i < 5 && i < size
        invariant
            i <= 5,
            i <= size,
            forall|j: int| 0 <= j < 5 ==> #[trigger] arr@[j] == (if j < i {
                fill_value
            } else {
                0u8
            }),
        decreases 5 - i,
    {
        arr[i] = fill_value;
        i = i + 1;
    }
    arr
}

/// The array `[1, 2, 3]`.
pub fn fixed_length_collection() -> (nums: [i32; 3])
    ensures
        nums@ == seq![1i32, 2, 3],
{
    let nums: [i32; 3] = [1, 2, 3];
    nums
}

/// Does nothing at run time. It stands for a rule of the type checker: an
/// `if` used as a value must give both branches one type.
pub fn if_in_let_statement_type_error() {
}

} // verus!
