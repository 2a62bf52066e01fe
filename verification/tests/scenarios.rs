//! The library at work: the arithmetic of a caller around the library's
//! constants, series, checks and cases, held to known values.

use erfa::constants::{ERFA_D2PI, ERFA_DAS2R, ERFA_DJ00, ERFA_DJC, ERFA_DPI, ERFA_TURNAS};
use erfa::earth::{order_parts, rotation_coefficients};
use erfa::misc::{has_direction, needs_turn};
use erfa::prenut::bpn_to_xy;
use erfa::time::gmst_coefficients;
use erfa::vectors_and_matrices::init_matrix;
use erfa::time::s06::{polynomial, terms_to_sum, Term, UNITS_PER_ARCSECOND};
use erfa::transform::{check_discriminant, check_ellipsoid, geodetic_case, polar_bound_factor};
use erfa::{fundamental_argument, prenut, Binary64, Ellipsoid, ErfaError};

const D2PI: f64 = f64::from_bits(ERFA_D2PI);
const DAS2R: f64 = f64::from_bits(ERFA_DAS2R);
const DJ00: f64 = f64::from_bits(ERFA_DJ00);
const DJC: f64 = f64::from_bits(ERFA_DJC);
const DPI: f64 = f64::from_bits(ERFA_DPI);
const TURNAS: f64 = f64::from_bits(ERFA_TURNAS);

fn encode(x: f64) -> Binary64 {
    Binary64::from_bits(x.to_bits())
}

fn number(x: Binary64) -> f64 {
    f64::from_bits(x.bits)
}

fn numbers<const N: usize>(c: [Binary64; N]) -> [f64; N] {
    c.map(number)
}

/// A polynomial in `t` with a constant term, in radians from arcseconds.
fn with_constant(c: [Binary64; 6], t: f64) -> f64 {
    let c = numbers(c);
    (c[0] + (c[1] + (c[2] + (c[3] + (c[4] + c[5] * t) * t) * t) * t) * t) * DAS2R
}

/// A polynomial in `t` without a constant term, in radians from arcseconds.
fn without_constant(c: [Binary64; 5], t: f64) -> f64 {
    let c = numbers(c);
    (c[0] + (c[1] + (c[2] + (c[3] + c[4] * t) * t) * t) * t) * t * DAS2R
}

fn centuries(date1: f64, date2: f64) -> f64 {
    ((date1 - DJ00) + date2) / DJC
}

fn norm_angle(a: f64) -> f64 {
    let mut w = a % D2PI;
    if needs_turn(encode(w)) {
        w += D2PI;
    }
    w
}

fn earth_rotation_angle(dj1: f64, dj2: f64) -> f64 {
    let (d1, d2) = order_parts(encode(dj1), encode(dj2));
    let (d1, d2) = (number(d1), number(d2));
    let t = d1 + (d2 - DJ00);
    let f = d1 % 1.0 + d2 % 1.0;
    let c = numbers(rotation_coefficients());
    norm_angle(D2PI * (f + c[0] + c[1] * t))
}

fn mean_sidereal_time(uta: f64, utb: f64, tta: f64, ttb: f64) -> f64 {
    let t = centuries(tta, ttb);
    norm_angle(earth_rotation_angle(uta, utb) + with_constant(gmst_coefficients(), t))
}

fn lunisolar(c: [Binary64; 5], t: f64) -> f64 {
    let c = numbers(c);
    (c[0] + t * (c[1] + t * (c[2] + t * (c[3] + t * c[4])))) % TURNAS * DAS2R
}

fn planetary(c: [Binary64; 2], t: f64) -> f64 {
    let c = numbers(c);
    (c[0] + c[1] * t) % D2PI
}

fn general_precession(t: f64) -> f64 {
    let c = numbers(fundamental_argument::pa03_coefficients());
    (c[0] + c[1] * t) * t
}

fn fundamental_arguments(t: f64) -> [f64; 8] {
    [
        lunisolar(fundamental_argument::l03_coefficients(), t),
        lunisolar(fundamental_argument::lp03_coefficients(), t),
        lunisolar(fundamental_argument::f03_coefficients(), t),
        lunisolar(fundamental_argument::d03_coefficients(), t),
        lunisolar(fundamental_argument::om03_coefficients(), t),
        planetary(fundamental_argument::ve03_coefficients(), t),
        planetary(fundamental_argument::e03_coefficients(), t),
        general_precession(t),
    ]
}

fn arcseconds(units: i32) -> f64 {
    f64::from(units) / f64::from(UNITS_PER_ARCSECOND)
}

fn sum_of_terms(mut w: f64, terms: &[Term], fa: &[f64; 8]) -> f64 {
    for term in terms {
        let mut a = 0.0;
        for i in 0..8 {
            a += f64::from(term.nfa[i]) * fa[i];
        }
        w += arcseconds(term.s) * a.sin() + arcseconds(term.c) * a.cos();
    }
    w
}

fn cio_locator(date1: f64, date2: f64, x: f64, y: f64) -> f64 {
    let t = (date1 - DJ00 + date2) / DJC;
    let fa = fundamental_arguments(t);
    let sp = polynomial();
    let w0 = sum_of_terms(arcseconds(sp[0]), &terms_to_sum(0), &fa);
    let w1 = sum_of_terms(arcseconds(sp[1]), &terms_to_sum(1), &fa);
    let w2 = sum_of_terms(arcseconds(sp[2]), &terms_to_sum(2), &fa);
    let w3 = sum_of_terms(arcseconds(sp[3]), &terms_to_sum(3), &fa);
    let w4 = sum_of_terms(arcseconds(sp[4]), &terms_to_sum(4), &fa);
    let w5 = arcseconds(sp[5]);
    (w0 + (w1 + (w2 + (w3 + (w4 + w5 * t) * t) * t) * t) * t) * DAS2R - x * y / 2.0
}

fn rotate_x(phi: f64, r: &mut [[f64; 3]; 3]) {
    let (s, c) = phi.sin_cos();
    for j in 0..3 {
        let (one, two) = (r[1][j], r[2][j]);
        r[1][j] = c * one + s * two;
        r[2][j] = -s * one + c * two;
    }
}

fn rotate_z(psi: f64, r: &mut [[f64; 3]; 3]) {
    let (s, c) = psi.sin_cos();
    for j in 0..3 {
        let (zero, one) = (r[0][j], r[1][j]);
        r[0][j] = c * zero + s * one;
        r[1][j] = -s * zero + c * one;
    }
}

fn fw_to_matrix(gamb: f64, phib: f64, psi: f64, eps: f64) -> [[f64; 3]; 3] {
    let mut r = [[encode(0.0); 3]; 3];
    init_matrix(&mut r);
    let mut r = r.map(numbers);
    rotate_z(gamb, &mut r);
    rotate_x(phib, &mut r);
    rotate_z(-psi, &mut r);
    rotate_x(-eps, &mut r);
    r
}

fn equation_of_the_origins(rnpb: [[f64; 3]; 3], s: f64) -> f64 {
    let x = rnpb[2][0];
    let ax = x / (1.0 + rnpb[2][2]);
    let xs = 1.0 - ax * x;
    let ys = -ax * rnpb[2][1];
    let zs = -x;
    let p = rnpb[0][0] * xs + rnpb[0][1] * ys + rnpb[0][2] * zs;
    let q = rnpb[1][0] * xs + rnpb[1][1] * ys + rnpb[1][2] * zs;
    if has_direction(encode(q), encode(p)) {
        s - q.atan2(p)
    } else {
        s
    }
}

fn apparent_sidereal_time(uta: f64, utb: f64, tta: f64, ttb: f64, rnpb: [[f64; 3]; 3]) -> f64 {
    let (x, y) = bpn_to_xy(rnpb.map(|row| row.map(encode)));
    let s = cio_locator(tta, ttb, number(x), number(y));
    let era = earth_rotation_angle(uta, utb);
    norm_angle(era - equation_of_the_origins(rnpb, s))
}

fn geocentric_to_geodetic(a: f64, f: f64, xyz: [f64; 3]) -> Result<[f64; 3], ErfaError> {
    check_ellipsoid(encode(a), encode(f))?;
    let aeps2 = a * a * number(polar_bound_factor());
    let e2 = (2.0 - f) * f;
    let e4t = e2 * e2 * 1.5;
    let ec2 = 1.0 - e2;
    let ec = ec2.sqrt();
    let b = a * ec;
    let [x, y, z] = xyz;
    let dist2 = x * x + y * y;
    let case = geodetic_case(encode(dist2), encode(aeps2), encode(z));
    let elong = if case.off_axis { y.atan2(x) } else { 0.0 };
    let absz = z.abs();
    let (mut phi, height) = if !case.polar {
        let p = dist2.sqrt();
        let s0 = absz / a;
        let pn = p / a;
        let zc = ec * s0;
        let c0 = ec * pn;
        let c02 = c0 * c0;
        let c03 = c02 * c0;
        let s02 = s0 * s0;
        let s03 = s02 * s0;
        let a02 = c02 + s02;
        let a0 = a02.sqrt();
        let a03 = a02 * a0;
        let d0 = zc * a03 + e2 * s03;
        let f0 = pn * a03 - e2 * c03;
        let b0 = e4t * s02 * c02 * pn * (a0 - ec);
        let s1 = d0 * f0 - b0 * s0;
        let cc = ec * (f0 * f0 - b0 * c0);
        let phi = (s1 / cc).atan();
        let s12 = s1 * s1;
        let cc2 = cc * cc;
        let height = (p * cc + absz * s1 - a * (ec2 * s12 + cc2).sqrt()) / (s12 + cc2).sqrt();
        (phi, height)
    } else {
        (DPI / 2.0, absz - b)
    };
    if case.south {
        phi *= -1.0;
    }
    Ok([elong, phi, height])
}

fn geodetic_to_geocentric(
    a: f64,
    f: f64,
    elong: f64,
    phi: f64,
    height: f64,
) -> Result<[f64; 3], ErfaError> {
    let (sp, cp) = phi.sin_cos();
    let w = 1.0 - f;
    let w = w * w;
    let d = cp * cp + w * sp * sp;
    check_discriminant(encode(d))?;
    let ac = a / d.sqrt();
    let as_ = w * ac;
    let r = (ac + height) * cp;
    let (s_elong, c_elong) = elong.sin_cos();
    Ok([r * c_elong, r * s_elong, (as_ + height) * sp])
}

fn params(e: Ellipsoid) -> (f64, f64) {
    let (a, f) = e.get_params();
    (number(a), number(f))
}

fn close(a: f64, b: f64, tolerance: f64) -> bool {
    (a - b).abs() <= tolerance
}

#[test]
fn a_position_on_wgs84_goes_there_and_back() {
    let (a, f) = params(Ellipsoid::WGS84);
    let xyz = geodetic_to_geocentric(a, f, 0.1, 0.2, 0.3).unwrap();
    let expected = [6220592.106434594, 624141.069176457, 1258823.8676709158];
    for i in 0..3 {
        assert!(close(xyz[i], expected[i], 1e-6 * expected[i].abs()), "{:?}", xyz);
    }
    let back = geocentric_to_geodetic(a, f, xyz).unwrap();
    assert!(close(back[0], 0.1, 1e-6 * 0.1), "{:?}", back);
    assert!(close(back[1], 0.2, 1e-6 * 0.2), "{:?}", back);
    assert!(close(back[2], 0.3, 1e-6), "{:?}", back);
}

#[test]
fn known_positions_are_transformed() {
    let e = geocentric_to_geodetic(6378136.0, 0.0033528, [2e6, 3e6, 5.244e6]).unwrap();
    assert!(close(e[0], 0.9827937232473290680, 1e-14));
    assert!(close(e[1], 0.9716018377570411532, 1e-14));
    assert!(close(e[2], 332.36862495764397, 1e-8));
    let xyz = geodetic_to_geocentric(6378136.0, 0.0033528, 3.1, -0.5, 2500.0).unwrap();
    assert!(close(xyz[0], -5598999.6665116328, 1e-7));
    assert!(close(xyz[1], 233011.63514630572, 1e-7));
    assert!(close(xyz[2], -3040909.0517314132, 1e-7));
}

#[test]
fn a_position_comes_back_from_its_geodetic_coordinates() {
    let ellipsoids = [
        params(Ellipsoid::WGS84),
        params(Ellipsoid::GRS80),
        params(Ellipsoid::WGS72),
        (6378136.0, 0.0033528),
        (1.0, 0.0),
        (3396190.0, 0.00589),
    ];
    let coordinates = [-6378137.0, -2e6, -1234.5, 0.0, 0.1, 0.3, 1e3, 3e6, 5.244e6, 2e7];
    for (a, f) in ellipsoids {
        for x in coordinates {
            for y in coordinates {
                for z in coordinates {
                    let xyz = [x * a / 6378137.0, y * a / 6378137.0, z * a / 6378137.0];
                    let distance = (xyz[0] * xyz[0] + xyz[1] * xyz[1] + xyz[2] * xyz[2]).sqrt();
                    if distance < 0.5 * a {
                        // Deep inside the ellipsoid the method loses accuracy,
                        // and near the centre a latitude and a height no
                        // longer single out the position.
                        continue;
                    }
                    let [elong, phi, height] = geocentric_to_geodetic(a, f, xyz).unwrap();
                    let back = geodetic_to_geocentric(a, f, elong, phi, height).unwrap();
                    let size = distance + a;
                    for i in 0..3 {
                        assert!(close(back[i], xyz[i], 1e-9 * size), "{:?} {:?}", xyz, back);
                    }
                }
            }
        }
    }
}

#[test]
fn a_position_on_the_axis_has_longitude_zero_and_comes_back() {
    let (a, f) = params(Ellipsoid::WGS84);
    for z in [6356752.314245179, -6356752.314245179, 1e7, -1.0, 0.0] {
        let [elong, phi, height] = geocentric_to_geodetic(a, f, [0.0, 0.0, z]).unwrap();
        assert_eq!(elong, 0.0);
        assert_eq!(phi.abs(), DPI / 2.0);
        assert_eq!(phi < 0.0, z < 0.0);
        let back = geodetic_to_geocentric(a, f, elong, phi, height).unwrap();
        assert!(close(back[0], 0.0, 1e-6) && close(back[1], 0.0, 1e-6), "{:?}", back);
        assert!(close(back[2], z, 1e-6), "{:?}", back);
    }
}

#[test]
fn a_bad_ellipsoid_stops_the_transformation() {
    let xyz = [2e6, 3e6, 5.244e6];
    let invalid = |value| {
        Err(ErfaError::InvalidValue { function: "geocentric_to_geodetic_inner", value })
    };
    assert_eq!(geocentric_to_geodetic(6378136.0, 1.0, xyz), invalid("f"));
    assert_eq!(geocentric_to_geodetic(6378136.0, -0.1, xyz), invalid("f"));
    assert_eq!(geocentric_to_geodetic(0.0, 0.0033528, xyz), invalid("a"));
    for e in [Ellipsoid::WGS84, Ellipsoid::GRS80, Ellipsoid::WGS72] {
        let (a, f) = params(e);
        assert!(geocentric_to_geodetic(a, f, xyz).is_ok());
        assert!(geodetic_to_geocentric(a, f, 3.1, -0.5, 2500.0).is_ok());
    }
}

#[test]
fn fundamental_arguments_of_a_known_time() {
    let t = 0.80;
    let known = [
        (lunisolar(fundamental_argument::l03_coefficients(), t), 5.132369751108684150),
        (lunisolar(fundamental_argument::lp03_coefficients(), t), 6.226797973505507345),
        (lunisolar(fundamental_argument::f03_coefficients(), t), 0.2597711366745499518),
        (lunisolar(fundamental_argument::d03_coefficients(), t), 1.946709205396925672),
        (lunisolar(fundamental_argument::om03_coefficients(), t), -5.973618440951302183),
        (planetary(fundamental_argument::me03_coefficients(), t), 5.417338184297289661),
        (planetary(fundamental_argument::ve03_coefficients(), t), 3.424900460533758000),
        (planetary(fundamental_argument::e03_coefficients(), t), 1.744713738913081846),
        (planetary(fundamental_argument::ma03_coefficients(), t), 3.275506840277781492),
        (planetary(fundamental_argument::ju03_coefficients(), t), 5.275711665202481138),
        (planetary(fundamental_argument::sa03_coefficients(), t), 5.371574539440827046),
        (planetary(fundamental_argument::ur03_coefficients(), t), 5.180636450180413523),
        (general_precession(t), 0.1950884762240000000e-1),
    ];
    for (found, expected) in known {
        assert!(close(found, expected, 1e-12), "{:?} {:?}", found, expected);
    }
}

#[test]
fn obliquity_of_a_known_date() {
    let t = centuries(2400000.5, 54388.0);
    let eps0 = with_constant(prenut::obliquity_coefficients(), t);
    assert!(close(eps0, 0.4090749229387258204, 1e-14));
}

#[test]
fn precession_angles_of_a_known_date() {
    let t = centuries(2400000.5, 52541.0);
    let eps0 = number(prenut::obliquity_coefficients()[0]) * DAS2R;
    let known = [
        (eps0, 0.4090926006005828715),
        (without_constant(prenut::psia_coefficients(), t), 0.6664369630191613431e-3),
        (eps0 + without_constant(prenut::oma_coefficients(), t), 0.4090925973783255982),
        (without_constant(prenut::bpa_coefficients(), t), 0.5561149371265209445e-6),
        (without_constant(prenut::bqa_coefficients(), t), -0.6191517193290621270e-5),
        (without_constant(prenut::pia_coefficients(), t), 0.6216441751884382923e-5),
        (with_constant(prenut::bpia_coefficients(), t), 3.052014180023779882),
        (with_constant(prenut::obliquity_coefficients(), t), 0.4090864054922431688),
        (without_constant(prenut::chia_coefficients(), t), 0.1387703379530915364e-5),
        (with_constant(prenut::za_coefficients(), t), 0.2921789846651790546e-3),
        (with_constant(prenut::zetaa_coefficients(), t), 0.3178773290332009310e-3),
        (without_constant(prenut::thetaa_coefficients(), t), 0.2650932701657497181e-3),
        (without_constant(prenut::pa_coefficients(), t), 0.6651637681381016288e-3),
        (without_constant(prenut::gam_coefficients(), t), 0.1398077115963754987e-5),
        (eps0 + without_constant(prenut::phi_coefficients(), t), 0.4090864090837462602),
        (without_constant(prenut::psi_coefficients(), t), 0.6664464807480920325e-3),
    ];
    for (found, expected) in known {
        assert!(close(found, expected, 1e-14), "{:?} {:?}", found, expected);
    }
}

#[test]
fn bias_precession_angles_of_a_known_date() {
    let t = centuries(2400000.5, 50123.9999);
    let gamb = with_constant(prenut::gamb_coefficients(), t);
    let phib = with_constant(prenut::phib_coefficients(), t);
    let psib = with_constant(prenut::psib_coefficients(), t);
    let epsa = with_constant(prenut::obliquity_coefficients(), t);
    assert!(close(gamb, -0.2243387670997995690e-5, 1e-16));
    assert!(close(phib, 0.4091014602391312808, 1e-12));
    assert!(close(psib, -0.9501954178013031895e-3, 1e-14));
    assert!(close(epsa, 0.4091014316587367491, 1e-12));
}

#[test]
fn nutation_of_a_known_date_is_adjusted() {
    // The IAU 2000A nutation of the date, and what the adjustments make of it.
    let (dp, de) = (-0.9630909107115518431e-5, 0.4063239174001678710e-4);
    let t = centuries(2400000.5, 53736.0);
    let c = numbers(prenut::nutation_adjustments());
    let fj2 = c[0] * t;
    let dpsi = dp + dp * (c[1] + fj2);
    let deps = de + de * fj2;
    assert!(close(dpsi, -0.9630912025820308797e-5, 1e-13));
    assert!(close(deps, 0.4063238496887249798e-4, 1e-13));
}

#[test]
fn earth_rotation_angle_of_a_known_date() {
    assert!(close(earth_rotation_angle(2400000.5, 54388.0), 0.4022837240028158102, 1e-12));
}

#[test]
fn mean_sidereal_time_of_known_dates() {
    let gmst = mean_sidereal_time(2400000.5, 53736.0, 2400000.5, 53736.0);
    assert!(close(gmst, 1.754174971870091203, 1e-12));
    let gmst = mean_sidereal_time(2451545.0, -1421.3, 2451545.0, -1421.3);
    assert!(close(gmst, 3.692418989082772, 1e-9));
}

#[test]
fn cio_locator_of_a_known_date() {
    let s = cio_locator(2400000.5, 53736.0, 0.5791308486706011000e-3, 0.4020579816732961219e-4);
    assert!(close(s, -0.1220032213076463117e-7, 1e-18), "{:e}", s);
    let s = cio_locator(2451545.0, -1421.3, 0.0, 0.0);
    assert!(close(s, 3.873946825307746e-9, 1e-18), "{:e}", s);
}

const KNOWN_MATRIX: [[f64; 3]; 3] = [
    [0.9999989440476103608, -0.1332881761240011518e-2, -0.5790767434730085097e-3],
    [0.1332858254308954453e-2, 0.9999991109044505944, -0.4097782710401555759e-4],
    [0.5791308472168153320e-3, 0.4020595661593994396e-4, 0.9999998314954572365],
];

#[test]
fn equation_of_the_origins_of_a_known_matrix() {
    let eo = equation_of_the_origins(KNOWN_MATRIX, -0.1220040848472271978e-7);
    assert!(close(eo, -0.1332882715130744606e-2, 1e-14));
}

#[test]
fn equation_of_the_origins_is_the_locator_where_nothing_points() {
    let nothing = [[0.0, 0.0, 1.0], [0.0, 0.0, 1.0], [0.0, 0.0, 1.0]];
    assert_eq!(equation_of_the_origins(nothing, 0.125), 0.125);
}

#[test]
fn apparent_sidereal_time_of_a_known_matrix() {
    let gst = apparent_sidereal_time(2400000.5, 53736.0, 2400000.5, 53736.0, KNOWN_MATRIX);
    assert!(close(gst, 1.754166138018167568, 1e-12));
}

#[test]
fn apparent_sidereal_time_of_a_known_date() {
    // From the date to the angle: bias and precession, the nutation of the
    // date with its adjustments, the matrix, the locator and the rotation.
    let (tta, ttb) = (2400000.5, 53736.0);
    let t = centuries(tta, ttb);
    let gamb = with_constant(prenut::gamb_coefficients(), t);
    let phib = with_constant(prenut::phib_coefficients(), t);
    let psib = with_constant(prenut::psib_coefficients(), t);
    let epsa = with_constant(prenut::obliquity_coefficients(), t);
    let (dp, de) = (-0.9630909107115518431e-5, 0.4063239174001678710e-4);
    let c = numbers(prenut::nutation_adjustments());
    let fj2 = c[0] * t;
    let (dpsi, deps) = (dp + dp * (c[1] + fj2), de + de * fj2);
    let rnpb = fw_to_matrix(gamb, phib, psib + dpsi, epsa + deps);
    let gst = apparent_sidereal_time(2400000.5, 53736.0, tta, ttb, rnpb);
    assert!(close(gst, 1.754166137675019159, 1e-12), "{:?}", gst);
}

#[test]
fn the_matrix_of_known_angles() {
    let r = fw_to_matrix(
        -0.2243387670997992368e-5,
        0.4091014602391312982,
        -0.9501954178013015092e-3,
        0.4091014316587367472,
    );
    let known = [
        [0.9999995505176007047, 0.8695404617348192957e-3, 0.3779735201865582571e-3],
        [-0.8695404723772016038e-3, 0.9999996219496027161, -0.1361752496887100026e-6],
        [-0.3779734957034082790e-3, -0.1924880848087615651e-6, 0.9999999285679971958],
    ];
    for i in 0..3 {
        for j in 0..3 {
            assert!(close(r[i][j], known[i][j], 1e-12), "{:?}", r);
        }
    }
}

#[test]
fn cio_locator_depends_on_the_order_of_the_terms() {
    // Summed from the largest term down, the series comes out a little
    // different: the order is part of the result.
    let t = (2400000.5 - DJ00 + 53736.0) / DJC;
    let fa = fundamental_arguments(t);
    let mut differs = false;
    for order in 0..5 {
        let mut largest_first = terms_to_sum(order);
        largest_first.reverse();
        let one = sum_of_terms(arcseconds(polynomial()[order]), &terms_to_sum(order), &fa);
        let other = sum_of_terms(arcseconds(polynomial()[order]), &largest_first, &fa);
        assert!(close(one, other, 1e-18));
        differs = differs || one != other;
    }
    assert!(differs);
}

#[test]
fn a_date_may_be_split_in_any_way() {
    // JD(UT1) = 2450123.7, apportioned in four ways.
    let splits = [(2450123.7, 0.0), (2451545.0, -1421.3), (2400000.5, 50123.2), (2450123.5, 0.2)];
    let era = earth_rotation_angle(2451545.0, -1421.3);
    let gmst = mean_sidereal_time(2451545.0, -1421.3, 2451545.0, -1421.3);
    let s = cio_locator(2451545.0, -1421.3, 0.0, 0.0);
    for (d1, d2) in splits {
        assert!(close(earth_rotation_angle(d1, d2), era, 1e-8));
        assert!(close(earth_rotation_angle(d2, d1), earth_rotation_angle(d1, d2), 0.0));
        assert!(close(mean_sidereal_time(d1, d2, d1, d2), gmst, 1e-8));
        assert!(close(cio_locator(d1, d2, 0.0, 0.0), s, 1e-15));
    }
}

#[test]
fn normalized_angles_are_in_range() {
    let angles = [
        0.0, -0.0, 0.1, -0.1, 1.0, -1.0, 3.0, -3.0, 6.0, -6.0, 6.283185307179586,
        -6.283185307179586, 6.283185307179587, 7.0, -7.0, 20.0, -20.0, 1e3, -1e3, 1e10, -1e10,
        1e300, -1e300, 1e-10, -1e-10, f64::MAX, f64::MIN,
    ];
    for a in angles {
        let w = norm_angle(a);
        assert!(0.0 <= w && w < D2PI, "{:?} -> {:?}", a, w);
    }
    let dates = [0.0, 0.2, -1421.3, 50123.2, 53736.0, 54388.0, 2400000.5, 2450123.7, 2451545.0];
    for d1 in dates {
        for d2 in dates {
            let era = earth_rotation_angle(d1, d2);
            assert!(0.0 <= era && era < D2PI, "{:?} {:?} -> {:?}", d1, d2, era);
            let gmst = mean_sidereal_time(d1, d2, d1, d2);
            assert!(0.0 <= gmst && gmst < D2PI, "{:?} {:?} -> {:?}", d1, d2, gmst);
        }
    }
}

#[test]
fn a_position_near_the_centre_does_not_come_back() {
    // Deep inside the ellipsoid more than one latitude and height stand for
    // a position, and the one that is found need not lead back to it.
    let (a, f) = params(Ellipsoid::WGS84);
    let xyz = [-1234.5, -1234.5, -1234.5];
    let [elong, phi, height] = geocentric_to_geodetic(a, f, xyz).unwrap();
    let back = geodetic_to_geocentric(a, f, elong, phi, height).unwrap();
    assert!(!close(back[2], xyz[2], 1.0), "{:?}", back);
}

#[test]
fn a_tiny_negative_angle_comes_out_as_a_full_turn() {
    // The remainder is negative, so a full turn is added, and the sum rounds
    // to the full turn itself.
    for a in [-1e-20, -5e-324, -3e-16] {
        assert!(needs_turn(encode(a % D2PI)));
        assert_eq!(norm_angle(a), D2PI);
    }
}
