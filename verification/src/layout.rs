//! Row-stride arithmetic for surface copies.
//!
//! A surface copy moves rows whose stride is a multiple of an alignment that
//! the GPU API fixes. A tightly packed image has no gap between its rows.
//! [`RowLayout`] computes the padded stride and converts between the two
//! arrangements.

use vstd::arithmetic::div_mod::lemma_fundamental_div_mod_converse;
use vstd::arithmetic::mul::lemma_mul_inequality;
use vstd::prelude::*;

verus! {

/// The smallest multiple of `alignment` that is at least `unpadded`.
pub open spec fn padded_row_bytes(unpadded: int, alignment: int) -> int
    recommends
        unpadded >= 0,
        alignment > 0,
{
    ((unpadded + alignment - 1) / alignment) * alignment
}

/// `padded_row_bytes` is a multiple of the alignment, is at least the
/// unpadded size, and exceeds it by less than one alignment unit.
pub proof fn lemma_padded_row_bytes(unpadded: int, alignment: int)
    requires
        unpadded >= 0,
        alignment > 0,
    ensures
        padded_row_bytes(unpadded, alignment) % alignment == 0,
        unpadded <= padded_row_bytes(unpadded, alignment) < unpadded + alignment,
{
    let q = (unpadded + alignment - 1) / alignment;
    let r = (unpadded + alignment - 1) % alignment;
    assert(unpadded + alignment - 1 == q * alignment + r && 0 <= r < alignment) by {
        vstd::arithmetic::div_mod::lemma_fundamental_div_mod(unpadded + alignment - 1, alignment);
        vstd::arithmetic::div_mod::lemma_mod_bound(unpadded + alignment - 1, alignment);
        assert(alignment * q == q * alignment) by (nonlinear_arith);
    }
    assert((q * alignment) % alignment == 0) by {
        vstd::arithmetic::div_mod::lemma_mod_multiples_basic(q, alignment);
    }
}

/// In an image of `height` rows of `stride` bytes, the byte at column `col` of
/// row `row` has the index `row * stride + col`, and that index gives back the
/// row and the column.
pub proof fn lemma_row_col(stride: int, height: int, row: int, col: int)
    requires
        0 <= row < height,
        0 <= col < stride,
    ensures
        0 <= row * stride + col < stride * height,
        (row * stride + col) / stride == row,
        (row * stride + col) % stride == col,
{
    lemma_fundamental_div_mod_converse(row * stride + col, stride, row, col);
    assert(row * stride >= 0) by (nonlinear_arith)
        requires
            row >= 0,
            stride > 0,
    ;
    assert(row * stride + stride <= stride * height) by (nonlinear_arith)
        requires
            row + 1 <= height,
            stride > 0,
    ;
}

/// An index into an image of `height` rows of `stride` bytes splits into a
/// row below `height` and a column below `stride`.
pub proof fn lemma_index_row_col(stride: int, height: int, i: int)
    requires
        stride > 0,
        0 <= i < stride * height,
    ensures
        0 <= i / stride < height,
        0 <= i % stride < stride,
        i == (i / stride) * stride + i % stride,
{
    vstd::arithmetic::div_mod::lemma_fundamental_div_mod(i, stride);
    vstd::arithmetic::div_mod::lemma_mod_bound(i, stride);
    let q = i / stride;
    assert(stride * q == q * stride) by (nonlinear_arith);
    assert(q >= 0) by (nonlinear_arith)
        requires
            q * stride + stride > 0,
            stride > 0,
    ;
    assert(q < height) by (nonlinear_arith)
        requires
            q * stride < stride * height,
            stride > 0,
    ;
}

/// Byte `i` of the padded image that holds `tight`, for rows of `unpadded`
/// bytes at a stride of `padded` bytes: the row's own bytes first, then
/// zeros.
pub open spec fn packed_byte(tight: Seq<u8>, unpadded: int, padded: int, i: int) -> u8 {
    let row = i / padded;
    let col = i % padded;
    if col < unpadded {
        tight[row * unpadded + col]
    } else {
        0u8
    }
}

/// The padded image of `height` rows that holds the tightly packed image
/// `tight`.
pub open spec fn packed(tight: Seq<u8>, unpadded: int, padded: int, height: nat) -> Seq<u8> {
    Seq::new((padded * height) as nat, |i: int| packed_byte(tight, unpadded, padded, i))
}

/// Byte `i` of the tightly packed image taken out of the padded image
/// `image`.
pub open spec fn unpacked_byte(image: Seq<u8>, unpadded: int, padded: int, i: int) -> u8 {
    let row = i / unpadded;
    let col = i % unpadded;
    image[row * padded + col]
}

/// The tightly packed image of `height` rows taken out of the padded image
/// `image`.
pub open spec fn unpacked(image: Seq<u8>, unpadded: int, padded: int, height: nat) -> Seq<u8> {
    Seq::new((unpadded * height) as nat, |i: int| unpacked_byte(image, unpadded, padded, i))
}

/// Byte strides of one image row, tightly packed and padded to an alignment.
#[derive(Clone, Copy, Debug)]
pub struct RowLayout {
    unpadded: u32,
    padded: u32,
    alignment: u32,
}

impl RowLayout {
    /// Bytes in one tightly packed row.
    pub closed spec fn spec_unpadded(self) -> int {
        self.unpadded as int
    }

    /// Bytes from the start of one padded row to the start of the next.
    pub closed spec fn spec_padded(self) -> int {
        self.padded as int
    }

    /// The alignment that the padded stride is a multiple of.
    pub closed spec fn spec_alignment(self) -> int {
        self.alignment as int
    }

    /// The padded stride is the smallest multiple of the alignment that holds
    /// one unpadded row.
    pub open spec fn wf(self) -> bool {
        &&& 0 <= self.spec_unpadded() <= u32::MAX
        &&& self.spec_alignment() > 0
        &&& self.spec_padded() == padded_row_bytes(self.spec_unpadded(), self.spec_alignment())
        &&& self.spec_padded() <= u32::MAX
    }

    /// The padded image of `height` rows that holds the tightly packed image
    /// `tight`.
    pub open spec fn spec_pack(self, tight: Seq<u8>, height: nat) -> Seq<u8> {
        packed(tight, self.spec_unpadded(), self.spec_padded(), height)
    }

    /// The tightly packed image of `height` rows taken out of the padded image
    /// `image`.
    pub open spec fn spec_unpack(self, image: Seq<u8>, height: nat) -> Seq<u8> {
        unpacked(image, self.spec_unpadded(), self.spec_padded(), height)
    }

    /// Computes the layout of rows of `width` pixels of `bytes_per_pixel`
    /// bytes each under `alignment`. There is no layout for a zero alignment
    /// or when the padded stride does not fit in 32 bits.
    pub fn new(width: u32, bytes_per_pixel: u32, alignment: u32) -> (r: Option<RowLayout>)
        ensures
            r.is_some() <==> alignment > 0 && width * bytes_per_pixel <= u32::MAX
                && padded_row_bytes(width * bytes_per_pixel, alignment as int) <= u32::MAX,
            r.is_some() ==> {
                &&& r.unwrap().wf()
                &&& r.unwrap().spec_unpadded() == width * bytes_per_pixel
                &&& r.unwrap().spec_alignment() == alignment
            },
    {
        if alignment == 0 {
            return None;
        }
        assert(0 <= width * bytes_per_pixel <= 0xffff_ffff * 0xffff_ffff) by (nonlinear_arith)
            requires
                0 <= width <= 0xffff_ffff,
                0 <= bytes_per_pixel <= 0xffff_ffff,
        ;
        let unpadded: u64 = (width as u64) * (bytes_per_pixel as u64);
        proof {
            lemma_padded_row_bytes(unpadded as int, alignment as int);
        }
        if unpadded > u32::MAX as u64 {
            return None;
        }
        let align: u64 = alignment as u64;
        let padded: u64 = (unpadded + align - 1) / align * align;
        if padded > u32::MAX as u64 {
            return None;
        }
        Some(RowLayout { unpadded: unpadded as u32, padded: padded as u32, alignment })
    }

    /// Lays the tightly packed image `tight` of `height` rows out in padded
    /// rows. Each padded row starts with the bytes of its tight row; the rest
    /// of it is zero.
    pub fn pack(&self, tight: &[u8], height: u32) -> (out: Vec<u8>)
        requires
            tight@.len() == self.spec_unpadded() * height,
            self.spec_padded() * height <= usize::MAX,
        ensures
            out@ == self.spec_pack(tight@, height as nat),
    {
        let unpadded: usize = self.unpadded as usize;
        let padded: usize = self.padded as usize;
        let rows: usize = height as usize;
        proof {
            use_type_invariant(self);
            lemma_padded_row_bytes(self.spec_unpadded(), self.spec_alignment());
            lemma_mul_inequality(unpadded as int, padded as int, rows as int);
        }
        let mut out: Vec<u8> = Vec::new();
        let mut row: usize = 0;
        while row < rows
            invariant
                self.wf(),
                unpadded == self.spec_unpadded(),
                padded == self.spec_padded(),
                unpadded <= padded,
                rows == height,
                row <= rows,
                tight@.len() == unpadded * rows,
                unpadded * rows <= usize::MAX,
                padded * rows <= usize::MAX,
                out@.len() == row * padded,
                forall|i: int|
                    0 <= i < out@.len() ==> out@[i] == packed_byte(
                        tight@,
                        unpadded as int,
                        padded as int,
                        i,
                    ),
            decreases rows - row,
        {
            let mut col: usize = 0;
            while col < padded
                invariant
                    self.wf(),
                    unpadded == self.spec_unpadded(),
                    padded == self.spec_padded(),
                    unpadded <= padded,
                    row < rows,
                    col <= padded,
                    tight@.len() == unpadded * rows,
                    unpadded * rows <= usize::MAX,
                    padded * rows <= usize::MAX,
                    out@.len() == row * padded + col,
                    forall|i: int|
                        0 <= i < out@.len() ==> out@[i] == packed_byte(
                            tight@,
                            unpadded as int,
                            padded as int,
                            i,
                        ),
                decreases padded - col,
            {
                proof {
                    lemma_row_col(padded as int, rows as int, row as int, col as int);
                    if col < unpadded {
                        lemma_row_col(unpadded as int, rows as int, row as int, col as int);
                    }
                }
                let byte: u8 = if col < unpadded {
                    tight[row * unpadded + col]
                } else {
                    0
                };
                out.push(byte);
                col += 1;
            }
            proof {
                assert(row * padded + padded == (row + 1) * padded) by (nonlinear_arith);
            }
            row += 1;
        }
        proof {
            assert(rows * padded == padded * rows) by (nonlinear_arith);
            assert(out@ =~= self.spec_pack(tight@, height as nat));
        }
        out
    }

    /// Takes the tightly packed image of `height` rows out of the padded image
    /// `padded`: the first bytes of each padded row, up to the unpadded row
    /// size.
    pub fn unpack(&self, padded: &[u8], height: u32) -> (out: Vec<u8>)
        requires
            padded@.len() == self.spec_padded() * height,
        ensures
            out@ == self.spec_unpack(padded@, height as nat),
    {
        let unpadded: usize = self.unpadded as usize;
        let stride: usize = self.padded as usize;
        let rows: usize = height as usize;
        let total: usize = padded.len();
        proof {
            use_type_invariant(self);
            lemma_padded_row_bytes(self.spec_unpadded(), self.spec_alignment());
            lemma_mul_inequality(unpadded as int, stride as int, rows as int);
        }
        let mut out: Vec<u8> = Vec::new();
        let mut row: usize = 0;
        while row < rows
            invariant
                self.wf(),
                unpadded == self.spec_unpadded(),
                stride == self.spec_padded(),
                unpadded <= stride,
                rows == height,
                row <= rows,
                padded@.len() == total,
                total == stride * rows,
                unpadded * rows <= total,
                out@.len() == row * unpadded,
                forall|i: int|
                    0 <= i < out@.len() ==> out@[i] == unpacked_byte(
                        padded@,
                        unpadded as int,
                        stride as int,
                        i,
                    ),
            decreases rows - row,
        {
            let mut col: usize = 0;
            while col < unpadded
                invariant
                    self.wf(),
                    unpadded == self.spec_unpadded(),
                    stride == self.spec_padded(),
                    unpadded <= stride,
                    row < rows,
                    col <= unpadded,
                    padded@.len() == total,
                    total == stride * rows,
                    unpadded * rows <= total,
                    out@.len() == row * unpadded + col,
                    forall|i: int|
                        0 <= i < out@.len() ==> out@[i] == unpacked_byte(
                            padded@,
                            unpadded as int,
                            stride as int,
                            i,
                        ),
                decreases unpadded - col,
            {
                proof {
                    lemma_row_col(stride as int, rows as int, row as int, col as int);
                    lemma_row_col(unpadded as int, rows as int, row as int, col as int);
                }
                out.push(padded[row * stride + col]);
                col += 1;
            }
            proof {
                assert(row * unpadded + unpadded == (row + 1) * unpadded) by (nonlinear_arith);
            }
            row += 1;
        }
        proof {
            assert(rows * unpadded == unpadded * rows) by (nonlinear_arith);
            assert(out@ =~= self.spec_unpack(padded@, height as nat));
        }
        out
    }

    #[verifier::type_invariant]
    spec fn well_formed(self) -> bool {
        self.wf()
    }

    /// Bytes in one tightly packed row.
    pub fn unpadded_bytes_per_row(&self) -> (r: u32)
        ensures
            r == self.spec_unpadded(),
            self.wf(),
    {
        proof {
            use_type_invariant(self);
        }
        self.unpadded
    }

    /// Bytes from the start of one padded row to the start of the next.
    pub fn padded_bytes_per_row(&self) -> (r: u32)
        ensures
            r == self.spec_padded(),
    {
        self.padded
    }

    /// The alignment that the padded stride is a multiple of.
    pub fn alignment(&self) -> (r: u32)
        ensures
            r == self.spec_alignment(),
    {
        self.alignment
    }
}

/// Unpacking a packed image gives back the image: for every width, height,
/// pixel size and alignment, and every tightly packed image of that size.
pub proof fn lemma_unpack_pack_rows(
    tight: Seq<u8>,
    width: int,
    bytes_per_pixel: int,
    alignment: int,
    height: nat,
)
    requires
        width >= 0,
        bytes_per_pixel >= 0,
        alignment > 0,
        tight.len() == width * bytes_per_pixel * height,
    ensures
        unpacked(
            packed(
                tight,
                width * bytes_per_pixel,
                padded_row_bytes(width * bytes_per_pixel, alignment),
                height,
            ),
            width * bytes_per_pixel,
            padded_row_bytes(width * bytes_per_pixel, alignment),
            height,
        ) == tight,
{
    let unpadded = width * bytes_per_pixel;
    assert(unpadded >= 0) by (nonlinear_arith)
        requires
            unpadded == width * bytes_per_pixel,
            width >= 0,
            bytes_per_pixel >= 0,
    ;
    lemma_padded_row_bytes(unpadded, alignment);
    lemma_unpack_pack_strides(tight, unpadded, padded_row_bytes(unpadded, alignment), height);
}

/// Unpacking a packed image gives back the image, at any stride that holds a
/// row.
pub proof fn lemma_unpack_pack_strides(tight: Seq<u8>, unpadded: int, padded: int, height: nat)
    requires
        0 <= unpadded <= padded,
        tight.len() == unpadded * height,
    ensures
        unpacked(packed(tight, unpadded, padded, height), unpadded, padded, height) == tight,
{
    let image = packed(tight, unpadded, padded, height);
    let back = unpacked(image, unpadded, padded, height);
    assert forall|i: int| 0 <= i < tight.len() implies back[i] == tight[i] by {
        assert(unpadded > 0) by (nonlinear_arith)
            requires
                unpadded >= 0,
                0 <= i < unpadded * height,
        ;
        lemma_index_row_col(unpadded, height as int, i);
        let row = i / unpadded;
        let col = i % unpadded;
        lemma_row_col(padded, height as int, row, col);
    }
    assert(back =~= tight);
}

/// Unpacking a packed image gives back the image: for every layout, height
/// and tightly packed image of that many rows.
pub proof fn lemma_unpack_pack(layout: RowLayout, tight: Seq<u8>, height: nat)
    requires
        layout.wf(),
        tight.len() == layout.spec_unpadded() * height,
    ensures
        layout.spec_unpack(layout.spec_pack(tight, height), height) == tight,
{
    lemma_padded_row_bytes(layout.spec_unpadded(), layout.spec_alignment());
    lemma_unpack_pack_strides(tight, layout.spec_unpadded(), layout.spec_padded(), height);
}

/// What packing puts at column `col` of row `row`: the byte at that column of
/// the same tight row, and zero from the unpadded row size on. Packing takes
/// nothing of a tight row past its unpadded size, and nothing of another row.
pub proof fn lemma_pack_row(
    tight: Seq<u8>,
    unpadded: int,
    padded: int,
    height: nat,
    row: int,
    col: int,
)
    requires
        0 <= row < height,
        0 <= col < padded,
    ensures
        0 <= row * padded + col < packed(tight, unpadded, padded, height).len(),
        packed(tight, unpadded, padded, height)[row * padded + col] == (if col < unpadded {
            tight[row * unpadded + col]
        } else {
            0u8
        }),
{
    lemma_row_col(padded, height as int, row, col);
}

/// What unpacking puts at column `col` of row `row`: the byte at that column
/// of the same padded row. Unpacking takes nothing of a padded row past the
/// unpadded row size.
pub proof fn lemma_unpack_row(
    image: Seq<u8>,
    unpadded: int,
    padded: int,
    height: nat,
    row: int,
    col: int,
)
    requires
        0 <= row < height,
        0 <= col < unpadded,
    ensures
        0 <= row * unpadded + col < unpacked(image, unpadded, padded, height).len(),
        unpacked(image, unpadded, padded, height)[row * unpadded + col] == image[row * padded
            + col],
{
    lemma_row_col(unpadded, height as int, row, col);
}

} // verus!
