//! Staging of input data for the compute pass: each complex number arrives
//! encoded as eight bytes (real part, then imaginary part) and is placed in
//! its slot of the buffer.

use vstd::prelude::*;

verus! {

/// Bytes taken by one encoded complex number.
pub const CPLX_SIZE: usize = 8;

/// Writes `values[j]` at bytes `8 * j .. 8 * j + 8` of `compute_buf`,
/// leaving the bytes after the last slot as they were.
pub fn create_test_data(compute_buf: &mut [u8], values: &[[u8; CPLX_SIZE]])
    requires
        CPLX_SIZE * values@.len() <= old(compute_buf)@.len(),
    ensures
        final(compute_buf)@.len() == old(compute_buf)@.len(),
        forall|j: int, i: int|
            0 <= j < values@.len() && 0 <= i < CPLX_SIZE ==> #[trigger] final(compute_buf)@[CPLX_SIZE
                * j + i] == values@[j][i],
        forall|k: int|
            CPLX_SIZE * values@.len() <= k < old(compute_buf)@.len() ==> #[trigger] final(compute_buf)@[k]
                == old(compute_buf)@[k],
{
    let ghost start = compute_buf@;
    let len = compute_buf.len();
    let mut j: usize = 0;
    while j < values.len()
        invariant
            j <= values@.len(),
            CPLX_SIZE * values@.len() <= start.len(),
            compute_buf@.len() == start.len(),
            start.len() == len,
            forall|jj: int, i: int|
                0 <= jj < j && 0 <= i < CPLX_SIZE ==> #[trigger] compute_buf@[CPLX_SIZE * jj + i]
                    == values@[jj][i],
            forall|k: int|
                CPLX_SIZE * j <= k < start.len() ==> #[trigger] compute_buf@[k] == start[k],
        decreases values@.len() - j,
    {
        let item = &values[j];
        let mut i: usize = 0;
        while i < CPLX_SIZE
            invariant
                j < values@.len(),
                i <= CPLX_SIZE,
                *item == values@[j as int],
                CPLX_SIZE * values@.len() <= start.len(),
                compute_buf@.len() == start.len(),
                start.len() == len,
            start.len() == len,
                forall|jj: int, ii: int|
                    0 <= jj < j && 0 <= ii < CPLX_SIZE ==> #[trigger] compute_buf@[CPLX_SIZE * jj
                        + ii] == values@[jj][ii],
                forall|ii: int| 0 <= ii < i ==> #[trigger] compute_buf@[CPLX_SIZE * j + ii] == values@[j as int][ii],
                forall|k: int|
                    CPLX_SIZE * j + i <= k < start.len() ==> #[trigger] compute_buf@[k] == start[k],
            decreases CPLX_SIZE - i,
        {
            assert(CPLX_SIZE * j + i < CPLX_SIZE * values@.len()) by (nonlinear_arith)
                requires
                    j < values@.len(),
                    i < CPLX_SIZE,
            ;
            compute_buf[CPLX_SIZE * j + i] = item[i];
            i = i + 1;
        }
        assert forall|jj: int, ii: int|
            0 <= jj < j + 1 && 0 <= ii < CPLX_SIZE implies #[trigger] compute_buf@[CPLX_SIZE * jj
            + ii] == values@[jj][ii] by {
            if jj == j {
                assert(compute_buf@[CPLX_SIZE * j + ii] == values@[j as int][ii]);
            }
        }
        j = j + 1;
    }
}

} // verus!
