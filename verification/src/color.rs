//! The image-histogram utility: the dominant color of a decoded image.
//!
//! Every pixel is quantized to a 4-bit-per-channel bucket; the winning
//! bucket maximizes saturation times population, and its quantized
//! components are the answer. Decoding the compressed bytes is the image
//! crate's work; everything after the raw RGB buffer is verified.
use vstd::prelude::*;
use crate::errors::BotError;

verus! {

/// The raw 8-bit RGB buffer (row-major, three bytes per pixel) that the
/// image crate decodes the given bytes to, or `None` when it cannot
/// decode them.
pub uninterp spec fn spec_decoded_rgb(img: Seq<u8>) -> Option<Seq<u8>>;

/// Relies on image's `ImageReader` (guessed format, `decode`,
/// `into_rgb8`): decoding is a function of the input bytes alone, and
/// the raw buffer holds three bytes per pixel.
#[verifier::external_body]
fn decode_rgb8(img: &[u8]) -> (r: Result<Vec<u8>, BotError>)
    ensures
        match r {
            Ok(v) => spec_decoded_rgb(img@) == Option::Some(v@) && v@.len() % 3 == 0,
            Err(e) => spec_decoded_rgb(img@) is None && e == BotError::Undecodable,
        },
{
    let reader = match image::ImageReader::new(std::io::Cursor::new(img)).with_guessed_format() {
        Ok(rd) => rd,
        Err(_) => return Err(BotError::Undecodable),
    };
    match reader.decode() {
        Ok(data) => Ok(data.into_rgb8().into_raw()),
        Err(_) => Err(BotError::Undecodable),
    }
}

/// A channel value quantized to 4 bits.
pub open spec fn spec_quant(x: u8) -> int {
    (x * 15) / 255
}

/// The bucket index of pixel `p` of a raw RGB buffer.
pub open spec fn spec_bucket(rgb: Seq<u8>, p: int) -> int {
    spec_quant(rgb[3 * p]) * 256 + spec_quant(rgb[3 * p + 1]) * 16 + spec_quant(rgb[3 * p + 2])
}

/// How many of the first `n` pixels fall in bucket `b`.
pub open spec fn spec_count_upto(rgb: Seq<u8>, b: int, n: int) -> int
    decreases n,
{
    if n <= 0 {
        0
    } else {
        spec_count_upto(rgb, b, n - 1) + if spec_bucket(rgb, n - 1) == b {
            1int
        } else {
            0int
        }
    }
}

/// How many pixels of the whole buffer fall in bucket `b`.
pub open spec fn spec_bucket_count(rgb: Seq<u8>, b: int) -> int {
    spec_count_upto(rgb, b, rgb.len() as int / 3)
}

/// The quantized components of bucket `b`.
pub open spec fn spec_bucket_components(b: int) -> Seq<u8> {
    seq![(b / 256) as u8, ((b / 16) % 16) as u8, (b % 16) as u8]
}

/// The saturation of bucket `b`: its largest component minus its
/// smallest.
pub open spec fn spec_sat(b: int) -> int {
    let r = b / 256;
    let g = (b / 16) % 16;
    let bl = b % 16;
    let hi = if r >= g && r >= bl {
        r
    } else if g >= bl {
        g
    } else {
        bl
    };
    let lo = if r <= g && r <= bl {
        r
    } else if g <= bl {
        g
    } else {
        bl
    };
    hi - lo
}

/// The sort key of bucket `b`: saturation weighted by population.
pub open spec fn spec_key(rgb: Seq<u8>, b: int) -> int {
    spec_sat(b) * spec_bucket_count(rgb, b)
}

/// Whether bucket `b` wins: it is populated and no populated bucket has
/// a larger key.
pub open spec fn spec_is_dominant(rgb: Seq<u8>, b: int) -> bool {
    &&& 0 <= b < 4096
    &&& spec_bucket_count(rgb, b) > 0
    &&& forall|b2: int|
        0 <= b2 < 4096 && spec_bucket_count(rgb, b2) > 0 ==> spec_key(rgb, b2) <= spec_key(rgb, b)
}

/// The dominant color of a raw RGB buffer: the quantized components of a
/// winning bucket, or black for an empty image.
pub fn dominant_color_of_rgb(rgb: &[u8]) -> (c: Vec<u8>)
    ensures
        rgb@.len() < 3 ==> c@ =~= seq![0u8, 0u8, 0u8],
        rgb@.len() >= 3 ==> exists|b: int|
            spec_is_dominant(rgb@, b) && c@ == spec_bucket_components(b),
{
    let n = rgb.len();
    let n_pix = n / 3;
    proof {
        vstd::arithmetic::div_mod::lemma_fundamental_div_mod(n as int, 3);
        vstd::arithmetic::div_mod::lemma_mod_bound(n as int, 3);
    }
    let mut counts: Vec<u64> = Vec::new();
    let mut z: usize = 0;
    while z < 4096
        invariant
            z <= 4096,
            counts@.len() == z,
            forall|b: int| 0 <= b < z ==> counts@[b] == 0,
        decreases 4096 - z,
    {
        counts.push(0);
        z = z + 1;
    }
    let mut p: usize = 0;
    while p < n_pix
        invariant
            0 <= p <= n_pix,
            n_pix == rgb@.len() as int / 3,
            n == rgb@.len(),
            3 * n_pix <= n,
            counts@.len() == 4096,
            forall|b: int| 0 <= b < 4096 ==> counts@[b] == spec_count_upto(rgb@, b, p as int),
            forall|b: int| 0 <= b < 4096 ==> counts@[b] <= p,
        decreases n_pix - p,
    {
        proof {
            assert(3 * p + 2 < n) by {
                assert(p + 1 <= n_pix);
                assert(3 * (p + 1) <= 3 * n_pix) by (nonlinear_arith)
                    requires
                        p + 1 <= n_pix,
                ;
            }
        }
        let qr = (rgb[3 * p] as u32) * 15 / 255;
        let qg = (rgb[3 * p + 1] as u32) * 15 / 255;
        let qb = (rgb[3 * p + 2] as u32) * 15 / 255;
        let idx = (qr * 256 + qg * 16 + qb) as usize;
        proof {
            assert(idx as int == spec_bucket(rgb@, p as int));
            assert(idx < 4096);
        }
        let ghost prevcounts = counts@;
        let cur = counts[idx];
        counts.set(idx, cur + 1);
        proof {
            assert forall|b: int|
                0 <= b < 4096 implies counts@[b] == spec_count_upto(rgb@, b, p + 1) by {
                assert(spec_count_upto(rgb@, b, p + 1) == spec_count_upto(rgb@, b, p as int) + if spec_bucket(
                    rgb@,
                    p as int,
                ) == b {
                    1int
                } else {
                    0int
                });
                if b != idx as int {
                    assert(counts@[b] == prevcounts[b]);
                }
            }
        }
        p = p + 1;
    }
    if n_pix == 0 {
        let mut out: Vec<u8> = Vec::new();
        out.push(0);
        out.push(0);
        out.push(0);
        proof {
            assert(rgb@.len() < 3);
        }
        return out;
    }
    let mut best: usize = 0;
    let mut best_key: u128 = 0;
    let mut found = false;
    let mut b: usize = 0;
    while b < 4096
        invariant
            0 <= b <= 4096,
            counts@.len() == 4096,
            n == rgb@.len(),
            forall|k: int| 0 <= k < 4096 ==> counts@[k] == spec_bucket_count(rgb@, k),
            found == exists|k: int| 0 <= k < b && spec_bucket_count(rgb@, k) > 0,
            found ==> {
                &&& best < 4096
                &&& spec_bucket_count(rgb@, best as int) > 0
                &&& best_key as int == spec_key(rgb@, best as int)
                &&& forall|k: int|
                    0 <= k < b && spec_bucket_count(rgb@, k) > 0 ==> spec_key(rgb@, k)
                        <= best_key as int
            },
        decreases 4096 - b,
    {
        let cnt = counts[b];
        if cnt > 0 {
            let sat = bucket_sat(b);
            proof {
                assert((sat as int) * (cnt as int) <= 15 * (u64::MAX as int)) by (nonlinear_arith)
                    requires
                        0 <= sat as int <= 15,
                        0 <= cnt as int <= u64::MAX as int,
                ;
            }
            let key: u128 = (sat as u128) * (cnt as u128);
            proof {
                assert(key as int == spec_key(rgb@, b as int));
            }
            if !found || key >= best_key {
                best = b;
                best_key = key;
                found = true;
            }
        }
        b = b + 1;
    }
    proof {
        assert(spec_bucket_count(rgb@, spec_bucket(rgb@, 0) ) > 0) by {
            lemma_count_member(rgb@, n_pix as int);
        }
        assert(0 <= spec_bucket(rgb@, 0) < 4096) by {
            lemma_bucket_range(rgb@, 0);
        }
        assert(found);
        assert(spec_is_dominant(rgb@, best as int));
    }
    let mut out: Vec<u8> = Vec::new();
    out.push((best / 256) as u8);
    out.push((best / 16 % 16) as u8);
    out.push((best % 16) as u8);
    proof {
        assert(out@ =~= spec_bucket_components(best as int));
    }
    out
}

/// The saturation of a bucket, computed from its index.
fn bucket_sat(b: usize) -> (s: u64)
    requires
        b < 4096,
    ensures
        s as int == spec_sat(b as int),
        s <= 15,
{
    let r = (b / 256) as u64;
    let g = (b / 16 % 16) as u64;
    let bl = (b % 16) as u64;
    let hi = if r >= g && r >= bl {
        r
    } else if g >= bl {
        g
    } else {
        bl
    };
    let lo = if r <= g && r <= bl {
        r
    } else if g <= bl {
        g
    } else {
        bl
    };
    hi - lo
}

proof fn lemma_bucket_range(rgb: Seq<u8>, p: int)
    requires
        0 <= p,
        3 * p + 2 < rgb.len(),
    ensures
        0 <= spec_bucket(rgb, p) < 4096,
{
}

/// A nonempty buffer has at least one populated bucket: pixel zero's.
proof fn lemma_count_member(rgb: Seq<u8>, n_pix: int)
    requires
        n_pix >= 1,
        n_pix == rgb.len() as int / 3,
    ensures
        spec_bucket_count(rgb, spec_bucket(rgb, 0)) > 0,
{
    lemma_count_pixel_zero(rgb, n_pix);
}

proof fn lemma_count_pixel_zero(rgb: Seq<u8>, n: int)
    requires
        n >= 1,
    ensures
        spec_count_upto(rgb, spec_bucket(rgb, 0), n) >= 1,
    decreases n,
{
    let b = spec_bucket(rgb, 0);
    if n == 1 {
        assert(spec_count_upto(rgb, b, 0) == 0);
        assert(spec_count_upto(rgb, b, 1) == spec_count_upto(rgb, b, 0) + 1);
    } else {
        lemma_count_pixel_zero(rgb, n - 1);
        assert(spec_count_upto(rgb, b, n) >= spec_count_upto(rgb, b, n - 1));
    }
}


/// The dominant color of an image: decodes the bytes, then takes the
/// winning quantized bucket; black for an image with no pixels. Fails
/// with `Undecodable` exactly when the bytes are not a decodable image.
pub fn calc_dominant_color(img: &[u8]) -> (r: Result<Vec<u8>, BotError>)
    ensures
        r is Ok <==> spec_decoded_rgb(img@) is Some,
        r is Err ==> r->Err_0 == BotError::Undecodable,
        r is Ok ==> ({
            let rgb = spec_decoded_rgb(img@)->0;
            &&& rgb.len() < 3 ==> r->Ok_0@ =~= seq![0u8, 0u8, 0u8]
            &&& rgb.len() >= 3 ==> exists|b: int|
                spec_is_dominant(rgb, b) && r->Ok_0@ == spec_bucket_components(b)
        }),
{
    let rgb = decode_rgb8(img)?;
    Ok(dominant_color_of_rgb(rgb.as_slice()))
}

} // verus!
