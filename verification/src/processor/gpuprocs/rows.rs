//! The rows of a picture in the buffers that it is copied through. In such a
//! buffer a row begins every `bytes_per_row` bytes, which may be more than the
//! picture's four bytes a pixel fill: the rest of each row is padding.

use vstd::arithmetic::div_mod::lemma_fundamental_div_mod;
use vstd::arithmetic::div_mod::lemma_fundamental_div_mod_converse;
use vstd::arithmetic::div_mod::lemma_mod_bound;
use vstd::prelude::*;

use crate::processor::error::Error;
use crate::processor::gpuprocs::blur::BYTES_PER_PIXEL;

verus! {

/// The number of bytes that a row of a picture of the given width fills.
pub open spec fn row_bytes(width: u32) -> nat {
    (BYTES_PER_PIXEL * width) as nat
}

/// Byte `i` of row `y`, where a row begins every `stride` bytes.
pub open spec fn byte_at(bytes: Seq<u8>, stride: nat, y: int, i: int) -> u8 {
    bytes[y * stride + i]
}

/// Whether `bytes` bytes hold the rows of a picture of the given size, a row
/// beginning every `bytes_per_row` bytes: a row of the picture is no longer
/// than that, and there are bytes for every row.
pub open spec fn holds_rows(width: u32, height: u32, bytes_per_row: u32, bytes: nat) -> bool {
    row_bytes(width) <= bytes_per_row && bytes >= bytes_per_row * height
}

/// The bytes of a picture of the given size, taken out of a buffer in which
/// a row begins every `bytes_per_row` bytes: row after row, without the
/// padding.
pub open spec fn spec_unpadded(bytes: Seq<u8>, width: u32, height: u32, bytes_per_row: u32) -> Seq<
    u8,
> {
    let len = row_bytes(width) as int;
    Seq::new(
        (len * height) as nat,
        |j: int| byte_at(bytes, bytes_per_row as nat, j / len, j % len),
    )
}

/// The bytes of a picture of the given size, laid out so that a row begins
/// every `bytes_per_row` bytes: each row, then zeros up to the next.
pub open spec fn spec_padded(bytes: Seq<u8>, width: u32, height: u32, bytes_per_row: u32) -> Seq<
    u8,
> {
    let len = row_bytes(width);
    let stride = bytes_per_row as int;
    Seq::new(
        (stride * height) as nat,
        |k: int|
            if k % stride < len {
                byte_at(bytes, len, k / stride, k % stride)
            } else {
                0u8
            },
    )
}

/// Checks that `bytes` bytes read back from the device hold the rows of a
/// picture of the given size.
pub fn check_readback(width: u32, height: u32, bytes_per_row: u32, bytes: usize) -> (checked:
    Result<(), Error>)
    ensures
        holds_rows(width, height, bytes_per_row, bytes as nat) ==> checked is Ok,
        !holds_rows(width, height, bytes_per_row, bytes as nat) ==> checked == Err::<(), Error>(
            Error::ImageBufferCreateError,
        ),
{
    assert(bytes_per_row * height <= 0xFFFF_FFFF * 0xFFFF_FFFF) by (nonlinear_arith)
        requires
            bytes_per_row <= 0xFFFF_FFFF,
            height <= 0xFFFF_FFFF,
    ;
    let needed: u64 = (bytes_per_row as u64) * (height as u64);
    if 4 * (width as u64) <= bytes_per_row as u64 && bytes as u128 >= needed as u128 {
        Ok(())
    } else {
        Err(Error::ImageBufferCreateError)
    }
}

/// Where byte `j` of a picture lies in a buffer of rows: row `j / len`, byte
/// `j % len`, which is inside the buffer.
proof fn lemma_place(j: int, len: int, stride: int, height: int)
    requires
        0 <= j < len * height,
        0 < len <= stride,
        0 <= height,
    ensures
        0 <= j / len < height,
        0 <= j % len < len,
        j == (j / len) * len + j % len,
        0 <= (j / len) * stride + j % len < stride * height,
{
    lemma_fundamental_div_mod(j, len);
    lemma_mod_bound(j, len);
    let y = j / len;
    let i = j % len;
    assert(0 <= y < height && y * len == len * y) by (nonlinear_arith)
        requires
            j == len * y + i,
            0 <= i < len,
            0 <= j < len * height,
    ;
    assert(0 <= y * stride + i < stride * height) by (nonlinear_arith)
        requires
            0 <= y < height,
            0 <= i < len,
            len <= stride,
    ;
}

/// Takes the picture out of the bytes read back: row `y` of the picture is
/// the start of row `y` of the buffer, and the padding is left out.
pub fn unpadded(bytes: &Vec<u8>, width: u32, height: u32, bytes_per_row: u32) -> (picture: Vec<u8>)
    requires
        holds_rows(width, height, bytes_per_row, bytes@.len()),
    ensures
        picture@ == spec_unpadded(bytes@, width, height, bytes_per_row),
        picture@.len() == BYTES_PER_PIXEL * width * height,
        forall|y: int, i: int|
            0 <= y < height && 0 <= i < row_bytes(width) ==> #[trigger] byte_at(
                picture@,
                row_bytes(width),
                y,
                i,
            ) == byte_at(bytes@, bytes_per_row as nat, y, i),
{
    let len: usize = 4 * (width as usize);
    let stride: usize = bytes_per_row as usize;
    assert(len * height <= stride * height <= bytes@.len()) by (nonlinear_arith)
        requires
            len <= stride,
            stride * height <= bytes@.len(),
            0 <= height,
            0 <= len,
    ;
    assert(bytes@.len() == bytes.len());
    let total: usize = len * (height as usize);
    let mut picture: Vec<u8> = Vec::new();
    let mut j: usize = 0;
    while j < total
        invariant
            j <= total,
            total == len * height,
            len == row_bytes(width),
            stride == bytes_per_row,
            len <= stride,
            stride * height <= bytes@.len(),
            picture@.len() == j,
            forall|k: int|
                0 <= k < j ==> picture@[k] == byte_at(
                    bytes@,
                    stride as nat,
                    k / (len as int),
                    k % (len as int),
                ),
        decreases total - j,
    {
        proof {
            if len == 0 {
                assert(len * height == 0) by (nonlinear_arith)
                    requires
                        len == 0,
                ;
            }
            lemma_place(j as int, len as int, stride as int, height as int);
        }
        let y: usize = j / len;
        let i: usize = j % len;
        assert(0 <= y * stride <= y * stride + i) by (nonlinear_arith)
            requires
                0 <= y,
                0 <= stride,
                0 <= i,
        ;
        assert(bytes@.len() == bytes.len());
        picture.push(bytes[y * stride + i]);
        j += 1;
    }
    proof {
        assert(picture@ =~= spec_unpadded(bytes@, width, height, bytes_per_row));
        assert(len * height == BYTES_PER_PIXEL * width * height) by (nonlinear_arith)
            requires
                len == BYTES_PER_PIXEL * width,
        ;
        assert forall|y: int, i: int|
            0 <= y < height && 0 <= i < row_bytes(width) implies #[trigger] byte_at(
            picture@,
            row_bytes(width),
            y,
            i,
        ) == byte_at(bytes@, bytes_per_row as nat, y, i) by {
            let at = y * len + i;
            lemma_fundamental_div_mod_converse(at, len as int, y, i);
            assert(0 <= at < len * height) by (nonlinear_arith)
                requires
                    at == y * len + i,
                    0 <= y < height,
                    0 <= i < len,
            ;
        }
    }
    picture
}

/// Lays the picture out for a buffer in which a row begins every
/// `bytes_per_row` bytes: row `y` of the buffer starts with row `y` of the
/// picture, and zeros fill it up.
pub fn padded(bytes: &Vec<u8>, width: u32, height: u32, bytes_per_row: u32) -> (rows: Vec<u8>)
    requires
        row_bytes(width) <= bytes_per_row,
        bytes@.len() == row_bytes(width) * height,
        bytes_per_row * height <= usize::MAX,
    ensures
        rows@ == spec_padded(bytes@, width, height, bytes_per_row),
        rows@.len() == bytes_per_row * height,
        forall|y: int, i: int|
            0 <= y < height && 0 <= i < row_bytes(width) ==> #[trigger] byte_at(
                rows@,
                bytes_per_row as nat,
                y,
                i,
            ) == byte_at(bytes@, row_bytes(width), y, i),
        spec_unpadded(rows@, width, height, bytes_per_row) == bytes@,
{
    let len: usize = 4 * (width as usize);
    let stride: usize = bytes_per_row as usize;
    let total: usize = stride * (height as usize);
    let mut rows: Vec<u8> = Vec::new();
    let mut k: usize = 0;
    while k < total
        invariant
            k <= total,
            total == stride * height,
            len == row_bytes(width),
            stride == bytes_per_row,
            len <= stride,
            bytes@.len() == len * height,
            rows@.len() == k,
            forall|n: int|
                0 <= n < k ==> rows@[n] == spec_padded(bytes@, width, height, bytes_per_row)[n],
        decreases total - k,
    {
        proof {
            if stride == 0 {
                assert(stride * height == 0) by (nonlinear_arith)
                    requires
                        stride == 0,
                ;
            }
            lemma_place(k as int, stride as int, stride as int, height as int);
        }
        let y: usize = k / stride;
        let i: usize = k % stride;
        if i < len {
            assert(0 <= y * len + i < len * height) by (nonlinear_arith)
                requires
                    0 <= y < height,
                    0 <= i < len,
            ;
            assert(0 <= y * len) by (nonlinear_arith)
                requires
                    0 <= y,
                    0 <= len,
            ;
            assert(bytes@.len() == bytes.len());
            rows.push(bytes[y * len + i]);
        } else {
            rows.push(0u8);
        }
        k += 1;
    }
    proof {
        assert(rows@ =~= spec_padded(bytes@, width, height, bytes_per_row));
        assert forall|y: int, i: int|
            0 <= y < height && 0 <= i < row_bytes(width) implies #[trigger] byte_at(
            rows@,
            bytes_per_row as nat,
            y,
            i,
        ) == byte_at(bytes@, row_bytes(width), y, i) by {
            let at = y * stride + i;
            lemma_fundamental_div_mod_converse(at, stride as int, y, i);
            assert(0 <= at < stride * height) by (nonlinear_arith)
                requires
                    at == y * stride + i,
                    0 <= y < height,
                    0 <= i < len,
                    len <= stride,
            ;
        }
        lemma_unpadded_undoes_padded(bytes@, width, height, bytes_per_row);
    }
    rows
}

/// To take the picture out of the rows that it was laid out in gives the
/// picture back.
pub proof fn lemma_unpadded_undoes_padded(
    bytes: Seq<u8>,
    width: u32,
    height: u32,
    bytes_per_row: u32,
)
    requires
        row_bytes(width) <= bytes_per_row,
        bytes.len() == row_bytes(width) * height,
    ensures
        spec_unpadded(
            spec_padded(bytes, width, height, bytes_per_row),
            width,
            height,
            bytes_per_row,
        ) == bytes,
{
    let len = row_bytes(width) as int;
    let stride = bytes_per_row as int;
    let rows = spec_padded(bytes, width, height, bytes_per_row);
    let back = spec_unpadded(rows, width, height, bytes_per_row);
    assert forall|j: int| 0 <= j < back.len() implies back[j] == bytes[j] by {
        lemma_place(j, len, stride, height as int);
        let y = j / len;
        let i = j % len;
        let at = y * stride + i;
        lemma_fundamental_div_mod_converse(at, stride, y, i);
    }
    assert(back =~= bytes);
}

} // verus!
