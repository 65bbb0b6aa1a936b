use vstd::arithmetic::power2::{lemma2_to64, pow2};
use vstd::prelude::*;

use crate::error::{Error, Result, E_ARITHMETIC_OVERFLOW, E_INVALIDARG, E_NOT_SUPPORTED};
use crate::format::{
    bits_per_pixel, is_compressed, is_packed, is_palettized, is_planar, is_small_block,
    spec_bits_per_pixel, spec_is_compressed, spec_is_packed, spec_is_palettized, spec_is_planar,
    DXGI_FORMAT,
};

verus! {

/// One step down the mip chain along one axis: halve, but never below 1.
pub open spec fn halve(d: nat) -> nat {
    if d > 1 {
        d / 2
    } else {
        d
    }
}

/// The extent along one axis of mip level `m`, for a level 0 extent of `d`.
pub open spec fn mip_dim(d: nat, m: nat) -> nat
    decreases m,
{
    if m == 0 {
        d
    } else {
        halve(mip_dim(d, (m - 1) as nat))
    }
}

/// The number of levels in a full mip chain: halve until both axes are 1.
pub open spec fn count_mips(w: nat, h: nat) -> nat
    decreases w + h,
{
    if w <= 1 && h <= 1 {
        1
    } else {
        1 + count_mips(halve(w), halve(h))
    }
}

/// The mip level count that a request for `requested` levels resolves to:
/// 0 asks for the full chain, and a request beyond the full chain fails.
pub open spec fn resolve_mips(w: nat, h: nat, requested: nat) -> Option<nat> {
    if requested == 0 {
        Some(count_mips(w, h))
    } else if requested > count_mips(w, h) {
        None
    } else {
        Some(requested)
    }
}

proof fn lemma_count_mips_bound(w: nat, h: nat, k: nat)
    requires
        w < pow2(k),
        h < pow2(k),
    ensures
        count_mips(w, h) <= k + 1,
    decreases k,
{
    if w <= 1 && h <= 1 {
    } else {
        assert(k > 0) by {
            if k == 0 {
                lemma2_to64();
            }
        };
        let k1 = (k - 1) as nat;
        vstd::arithmetic::power2::lemma_pow2_unfold(k);
        lemma_count_mips_bound(halve(w), halve(h), k1);
    }
}

/// The number of levels in a full mip chain for a `width` by `height` texture.
pub fn full_mip_count(width: usize, height: usize) -> (r: usize)
    ensures
        r == count_mips(width as nat, height as nat),
{
    proof {
        lemma2_to64();
        lemma_count_mips_bound(width as nat, height as nat, 64);
    }
    let mut w = width;
    let mut h = height;
    let mut levels: usize = 1;
    while h > 1 || w > 1
        invariant
            levels >= 1,
            levels - 1 + count_mips(w as nat, h as nat) == count_mips(width as nat, height as nat),
            count_mips(width as nat, height as nat) <= 65,
        decreases w + h,
    {
        if h > 1 {
            h = h / 2;
        }
        if w > 1 {
            w = w / 2;
        }
        levels = levels + 1;
    }
    levels
}

/// Resolves a requested mip level count against a `width` by `height`
/// texture: 0 asks for the full chain; more than the full chain is rejected.
pub fn calculate_mip_levels(width: usize, height: usize, requested: usize) -> (r: Option<usize>)
    ensures
        match resolve_mips(width as nat, height as nat, requested as nat) {
            Some(m) => r is Some && r->Some_0 as nat == m,
            None => r is None,
        },
{
    let full = full_mip_count(width, height);
    if requested == 0 {
        Some(full)
    } else if requested > full {
        None
    } else {
        Some(requested)
    }
}

/// Bytes in one unit of a 4:2:2 packed format (two pixels).
pub open spec fn packed_unit(format: DXGI_FORMAT) -> nat {
    if format == 108 || format == 109 {
        8
    } else {
        4
    }
}

/// Whether this library lays out `format`: it has a size and is neither
/// planar nor palettized.
pub open spec fn has_linear_layout(format: DXGI_FORMAT) -> bool {
    spec_bits_per_pixel(format) != 0 && !spec_is_planar(format) && !spec_is_palettized(format)
}

/// Row pitch and slice pitch, in bytes, of a `w` by `h` plane of `format`.
pub open spec fn pitch_of(format: DXGI_FORMAT, w: nat, h: nat) -> (nat, nat) {
    if spec_is_compressed(format) {
        let nbw: nat = if (w + 3) / 4 > 1 { ((w + 3) / 4) as nat } else { 1 };
        let nbh: nat = if (h + 3) / 4 > 1 { ((h + 3) / 4) as nat } else { 1 };
        let block: nat = if is_small_block(format) { 8 } else { 16 };
        (nbw * block, nbw * block * nbh)
    } else if spec_is_packed(format) {
        let row: nat = (((w + 1) / 2) as nat) * packed_unit(format);
        (row, row * h)
    } else {
        let row: nat = ((w * spec_bits_per_pixel(format) + 7) / 8) as nat;
        (row, row * h)
    }
}

/// The error that `compute_pitch` reports for a format without a layout.
pub open spec fn format_error(format: DXGI_FORMAT) -> Error {
    if spec_bits_per_pixel(format) == 0 {
        Error(E_INVALIDARG)
    } else {
        Error(E_NOT_SUPPORTED)
    }
}

/// Computes the row pitch and the slice pitch of a `width` by `height`
/// plane of `format`.
pub fn compute_pitch(format: DXGI_FORMAT, width: usize, height: usize) -> (r: Result<
    (usize, usize),
>)
    ensures
        !has_linear_layout(format) ==> r == Err::<(usize, usize), Error>(format_error(format)),
        has_linear_layout(format) ==> match r {
            Ok((row, slice)) => (row as nat, slice as nat) == pitch_of(
                format,
                width as nat,
                height as nat,
            ),
            Err(e) => e == Error(E_ARITHMETIC_OVERFLOW) && (pitch_of(
                format,
                width as nat,
                height as nat,
            ).0 > usize::MAX || pitch_of(format, width as nat, height as nat).1 > usize::MAX),
        },
{
    let bpp = bits_per_pixel(format);
    if bpp == 0 {
        return Err(Error(E_INVALIDARG));
    }
    if is_planar(format) || is_palettized(format) {
        return Err(Error(E_NOT_SUPPORTED));
    }
    let row: usize;
    let rows: usize;
    if is_compressed(format) {
        let nbw: usize = if width / 4 + (width % 4 + 3) / 4 > 1 {
            width / 4 + (width % 4 + 3) / 4
        } else {
            1
        };
        let nbh: usize = if height / 4 + (height % 4 + 3) / 4 > 1 {
            height / 4 + (height % 4 + 3) / 4
        } else {
            1
        };
        assert(nbw == (if (width + 3) / 4 > 1 { ((width + 3) / 4) as nat } else { 1 }));
        assert(nbh == (if (height + 3) / 4 > 1 { ((height + 3) / 4) as nat } else { 1 }));
        let block: usize = if (70 <= format && format <= 72) || (79 <= format && format <= 81) {
            8
        } else {
            16
        };
        match nbw.checked_mul(block) {
            Some(v) => {
                row = v;
            },
            None => {
                return Err(Error(E_ARITHMETIC_OVERFLOW));
            },
        }
        rows = nbh;
        proof {
            let p = pitch_of(format, width as nat, height as nat);
            assert(p.1 == row * nbh) by (nonlinear_arith)
                requires
                    p.1 == nbw * block * nbh,
                    row == nbw * block,
            ;
            assert(p.0 <= p.1) by (nonlinear_arith)
                requires
                    p.0 == row,
                    p.1 == row * nbh,
                    nbh >= 1,
            ;
        }
    } else if is_packed(format) {
        let unit: usize = if format == 108 || format == 109 {
            8
        } else {
            4
        };
        let pairs: usize = width / 2 + width % 2;
        assert(pairs == (width + 1) / 2);
        match pairs.checked_mul(unit) {
            Some(v) => {
                row = v;
            },
            None => {
                return Err(Error(E_ARITHMETIC_OVERFLOW));
            },
        }
        rows = height;
    } else if bpp == 1 {
        row = width / 8 + (width % 8 + 7) / 8;
        assert(row == (width * 1 + 7) / 8);
        rows = height;
    } else {
        assert(bpp % 8 == 0);
        match width.checked_mul(bpp / 8) {
            Some(v) => {
                row = v;
                assert(row == (width * bpp + 7) / 8) by (nonlinear_arith)
                    requires
                        row == width * (bpp / 8),
                        bpp % 8 == 0,
                ;
            },
            None => {
                assert((width * bpp + 7) / 8 > usize::MAX) by (nonlinear_arith)
                    requires
                        width * (bpp / 8) > usize::MAX,
                        bpp % 8 == 0,
                ;
                return Err(Error(E_ARITHMETIC_OVERFLOW));
            },
        }
        rows = height;
    }
    match row.checked_mul(rows) {
        Some(slice) => Ok((row, slice)),
        None => Err(Error(E_ARITHMETIC_OVERFLOW)),
    }
}

} // verus!
