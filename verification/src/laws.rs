//! What holds of every camera and every transform.
//!
//! The laws are stated over the real-number model, so they hold of the
//! exact values that the operations return.

use crate::algebra::{
    lemma_affine_after_affine,
    lemma_distribute,
    lemma_distribute4,
    lemma_div_mul_swap,
    lemma_mul_assoc,
    lemma_mul_basics,
    lemma_mul_div_cancel,
    lemma_mul_signs,
};
use crate::model::{Real2, Real4, RealCamera, RealMatrix4, RealRotation, RealTransform};
use crate::pose::pose_matrix;
use vstd::prelude::*;

verus! {

/// A pose matrix sends its origin to its target, whatever the rotation and
/// the scale.
pub proof fn lemma_pose_origin(rotation: RealRotation, scale: Real2, origin: Real2, target: Real2)
    ensures
        pose_matrix(rotation, scale, origin, target).transform_point2(origin) == target,
{
    let m00 = rotation.cos * scale.x;
    let m01 = -(rotation.sin * scale.y);
    let m10 = rotation.sin * scale.x;
    let m11 = rotation.cos * scale.y;
    assert(m00 * origin.x + m01 * origin.y + (origin.x * (-m00) - origin.y * m01 + target.x)
        == target.x) by (nonlinear_arith);
    assert(m10 * origin.x + m11 * origin.y + (origin.y * (-m11) - origin.x * m10 + target.y)
        == target.y) by (nonlinear_arith);
}

/// The pose without translation, rotation, scaling and pivot has the
/// identity matrix, as a transform and as a camera.
pub proof fn lemma_identity_matrix()
    ensures
        RealTransform::identity().matrix() == RealMatrix4::identity(),
        RealCamera::identity().matrix() == RealMatrix4::identity(),
        RealCamera::identity().inverse_matrix() == RealMatrix4::identity(),
{
    lemma_mul_basics(0real);
    lemma_mul_basics(1real);
    lemma_mul_basics(-1real);
    lemma_mul_basics(-0real);
}

/// The anchor invariant: every camera shows its position at its anchor. So
/// it does after any pan, rotation or anchored zoom.
pub proof fn lemma_anchor_invariant(
    c: RealCamera,
    delta: Real2,
    turn: RealRotation,
    point: Real2,
    factor: Real2,
)
    ensures
        c.world_to_screen_coords(c.position) == c.offset,
        ({
            let d = c.move_by_world_coords(delta);
            d.world_to_screen_coords(d.position) == d.offset
        }),
        ({
            let d = c.move_by_screen_coords(delta);
            d.world_to_screen_coords(d.position) == d.offset
        }),
        ({
            let d = c.rotate(turn);
            d.world_to_screen_coords(d.position) == d.offset
        }),
        ({
            let d = c.zoom(factor);
            d.world_to_screen_coords(d.position) == d.offset
        }),
        ({
            let d = c.zoom_at_screen_coords(point, factor);
            d.world_to_screen_coords(d.position) == d.offset
        }),
{
    lemma_pose_origin(c.rotation, c.scale, c.position, c.offset);
    let d = c.move_by_world_coords(delta);
    lemma_pose_origin(d.rotation, d.scale, d.position, d.offset);
    let d = c.move_by_screen_coords(delta);
    lemma_pose_origin(d.rotation, d.scale, d.position, d.offset);
    let d = c.rotate(turn);
    lemma_pose_origin(d.rotation, d.scale, d.position, d.offset);
    let d = c.zoom(factor);
    lemma_pose_origin(d.rotation, d.scale, d.position, d.offset);
    let d = c.zoom_at_screen_coords(point, factor);
    lemma_pose_origin(d.rotation, d.scale, d.position, d.offset);
}

/// A transform's matrix sends the de-scaled pivot to `dest`.
pub proof fn lemma_pivot_goes_to_dest(t: RealTransform)
    ensures
        t.matrix().transform_point2(t.descaled_pivot()) == t.dest,
{
    lemma_pose_origin(t.rotation, t.scale, t.descaled_pivot(), t.dest);
}

/// The linear parts of the view matrix and of its inverse multiply to the
/// identity, in both orders.
proof fn lemma_linear_parts_inverse(c: real, s: real, sx: real, sy: real)
    requires
        c * c + s * s == 1real,
        sx != 0real,
        sy != 0real,
    ensures
        ({
            let (a, b, g, d) = (c * sx, -(s * sy), s * sx, c * sy);
            let (e, f, h, k) = (c / sx, s / sx, -(s / sy), c / sy);
            &&& a * e + b * h == 1real
            &&& a * f + b * k == 0real
            &&& g * e + d * h == 0real
            &&& g * f + d * k == 1real
            &&& e * a + f * g == 1real
            &&& e * b + f * d == 0real
            &&& h * a + k * g == 0real
            &&& h * b + k * d == 1real
        }),
{
    let (a, d, g, n) = (c * sx, c * sy, s * sx, s * sy);
    let (e, k, f, m) = (c / sx, c / sy, s / sx, s / sy);
    let (cc, cs, sc, ss) = (c * c, c * s, s * c, s * s);
    lemma_mul_signs(c, s);
    // an entry of the matrix times an entry of the inverse
    lemma_mul_div_cancel(c, c, sx);
    lemma_mul_div_cancel(c, s, sx);
    lemma_mul_div_cancel(s, c, sx);
    lemma_mul_div_cancel(s, s, sx);
    lemma_mul_div_cancel(c, c, sy);
    lemma_mul_div_cancel(c, s, sy);
    lemma_mul_div_cancel(s, c, sy);
    lemma_mul_div_cancel(s, s, sy);
    assert(a * e == cc && a * f == cs && g * e == sc && g * f == ss);
    assert(n * m == ss && n * k == sc && d * m == cs && d * k == cc);
    lemma_mul_signs(n, m);
    lemma_mul_signs(n, k);
    lemma_mul_signs(d, m);
    // an entry of the inverse times an entry of the matrix
    assert(e * a == cc && f * g == ss && m * n == ss && k * d == cc);
    lemma_div_mul_swap(c, s, sx, sy);
    lemma_div_mul_swap(s, c, sy, sx);
    assert(e * n == f * d && m * a == k * g);
    lemma_mul_signs(e, n);
    lemma_mul_signs(m, a);
    lemma_mul_signs(m, n);
}

/// An affine map of the plane after its inverse: when the linear parts
/// `[[a, b], [g, d]]` and `[[e, f], [h, k]]` multiply to the identity, and
/// the translations are `o - L(p)` and `p - M(o)`, the composition is the
/// identity map.
proof fn lemma_affine_after_inverse(
    a: real,
    b: real,
    g: real,
    d: real,
    e: real,
    f: real,
    h: real,
    k: real,
    o: Real2,
    p: Real2,
    q: Real2,
)
    requires
        a * e + b * h == 1real,
        a * f + b * k == 0real,
        g * e + d * h == 0real,
        g * f + d * k == 1real,
    ensures
        ({
            let tx = o.x - (a * p.x + b * p.y);
            let ty = o.y - (g * p.x + d * p.y);
            let ux = p.x - (e * o.x + f * o.y);
            let uy = p.y - (h * o.x + k * o.y);
            let wx = e * q.x + f * q.y + ux;
            let wy = h * q.x + k * q.y + uy;
            &&& a * wx + b * wy + tx == q.x
            &&& g * wx + d * wy + ty == q.y
        }),
{
    let tx = o.x - (a * p.x + b * p.y);
    let ty = o.y - (g * p.x + d * p.y);
    let eo = e * o.x + f * o.y;
    let ho = h * o.x + k * o.y;
    let ux = p.x - eo;
    let uy = p.y - ho;
    lemma_affine_after_affine(a, b, tx, e, f, ux, h, k, uy, q.x, q.y);
    lemma_affine_after_affine(g, d, ty, e, f, ux, h, k, uy, q.x, q.y);
    lemma_affine_after_affine(a, b, 0real, e, f, 0real, h, k, 0real, o.x, o.y);
    lemma_affine_after_affine(g, d, 0real, e, f, 0real, h, k, 0real, o.x, o.y);
    lemma_mul_basics(a);
    lemma_mul_basics(b);
    lemma_mul_basics(g);
    lemma_mul_basics(d);
    lemma_mul_basics(q.x);
    lemma_mul_basics(q.y);
    lemma_mul_basics(o.x);
    lemma_mul_basics(o.y);
    assert(a * eo + b * ho == o.x && g * eo + d * ho == o.y);
    lemma_distribute(a, p.x, eo);
    lemma_distribute(b, p.y, ho);
    lemma_distribute(g, p.x, eo);
    lemma_distribute(d, p.y, ho);
    assert(a * ux + b * uy + tx == 0real);
    assert(g * ux + d * uy + ty == 0real);
}

/// The round trip: on a camera whose zoom has no zero component, going from
/// the screen to the world and back gives the point again, and so does going
/// from the world to the screen and back.
pub proof fn lemma_round_trip(c: RealCamera, p: Real2)
    requires
        c.rotation.is_unit(),
        c.scale.no_zero(),
    ensures
        c.world_to_screen_coords(c.screen_to_world_coords(p)) == p,
        c.screen_to_world_coords(c.world_to_screen_coords(p)) == p,
{
    let (cos, sin, sx, sy) = (c.rotation.cos, c.rotation.sin, c.scale.x, c.scale.y);
    let (a, b, g, d) = (cos * sx, -(sin * sy), sin * sx, cos * sy);
    let (e, f, h, k) = (cos / sx, sin / sx, -(sin / sy), cos / sy);
    lemma_linear_parts_inverse(cos, sin, sx, sy);
    lemma_mul_signs(c.position.x, a);
    lemma_mul_signs(c.position.y, d);
    lemma_mul_signs(c.position.y, b);
    lemma_mul_signs(c.position.x, g);
    lemma_affine_after_inverse(a, b, g, d, e, f, h, k, c.offset, c.position, p);
    lemma_affine_after_inverse(e, f, h, k, a, b, g, d, c.position, c.offset, p);
}

/// The product of two affine maps in homogeneous form is the affine map
/// whose linear part is the product of the linear parts and whose
/// translation is the second one's, taken through the first map.
pub proof fn lemma_affine_product(
    a: real,
    b: real,
    g: real,
    d: real,
    tx: real,
    ty: real,
    e: real,
    f: real,
    h: real,
    k: real,
    ux: real,
    uy: real,
)
    ensures
        RealMatrix4::affine(a, b, g, d, tx, ty).mul(RealMatrix4::affine(e, f, h, k, ux, uy))
            == RealMatrix4::affine(
            a * e + b * h,
            a * f + b * k,
            g * e + d * h,
            g * f + d * k,
            a * ux + b * uy + tx,
            g * ux + d * uy + ty,
        ),
{
    lemma_mul_basics(a);
    lemma_mul_basics(b);
    lemma_mul_basics(g);
    lemma_mul_basics(d);
    lemma_mul_basics(tx);
    lemma_mul_basics(ty);
    lemma_mul_basics(e);
    lemma_mul_basics(f);
    lemma_mul_basics(h);
    lemma_mul_basics(k);
    lemma_mul_basics(ux);
    lemma_mul_basics(uy);
    lemma_mul_basics(0real);
    lemma_mul_basics(1real);
}

/// The matrix that a camera builds from screen to world is the inverse of
/// its view matrix, on both sides, as long as no zoom component is zero.
pub proof fn lemma_inverse_matrix(c: RealCamera)
    requires
        c.rotation.is_unit(),
        c.scale.no_zero(),
    ensures
        c.matrix().mul(c.inverse_matrix()) == RealMatrix4::identity(),
        c.inverse_matrix().mul(c.matrix()) == RealMatrix4::identity(),
{
    let (cos, sin, sx, sy) = (c.rotation.cos, c.rotation.sin, c.scale.x, c.scale.y);
    let (a, b, g, d) = (cos * sx, -(sin * sy), sin * sx, cos * sy);
    let (e, f, h, k) = (cos / sx, sin / sx, -(sin / sy), cos / sy);
    let (o, p) = (c.offset, c.position);
    let tx = p.x * (-a) - p.y * b + o.x;
    let ty = p.y * (-d) - p.x * g + o.y;
    let ux = p.x - (e * o.x + f * o.y);
    let uy = p.y - (h * o.x + k * o.y);
    let zero = Real2 { x: 0real, y: 0real };
    lemma_linear_parts_inverse(cos, sin, sx, sy);
    lemma_mul_signs(p.x, a);
    lemma_mul_signs(p.y, d);
    lemma_mul_signs(p.y, b);
    lemma_mul_signs(p.x, g);
    lemma_mul_basics(a);
    lemma_mul_basics(b);
    lemma_mul_basics(g);
    lemma_mul_basics(d);
    lemma_mul_basics(e);
    lemma_mul_basics(f);
    lemma_mul_basics(h);
    lemma_mul_basics(k);
    lemma_affine_after_inverse(a, b, g, d, e, f, h, k, o, p, zero);
    lemma_affine_after_inverse(e, f, h, k, a, b, g, d, p, o, zero);
    lemma_affine_product(a, b, g, d, tx, ty, e, f, h, k, ux, uy);
    lemma_affine_product(e, f, h, k, ux, uy, a, b, g, d, tx, ty);
}

/// The anchored zoom keeps its point: the world point `w` that a camera
/// shows at the screen point `point` is shown there again after
/// `zoom_at_screen_coords(point, factor)`, whatever the rotation, as long as
/// no component of the zoom and of the factor is zero.
pub proof fn lemma_zoom_keeps_point(c: RealCamera, point: Real2, factor: Real2)
    requires
        c.rotation.is_unit(),
        c.scale.no_zero(),
        factor.no_zero(),
    ensures
        c.zoom_at_screen_coords(point, factor).world_to_screen_coords(
            c.screen_to_world_coords(point),
        ) == point,
        c.zoom_at_screen_coords(point, factor).scale.no_zero(),
{
    let w = c.screen_to_world_coords(point);
    let z = c.zoom_at_screen_coords(point, factor);
    let (cos, sin, sx, sy) = (c.rotation.cos, c.rotation.sin, c.scale.x, c.scale.y);
    let (fx, fy) = (factor.x, factor.y);
    let (p, n) = (c.position, z.position);
    // the matrix before, and after
    let (a, sn, g, d) = (cos * sx, sin * sy, sin * sx, cos * sy);
    let (a2, sn2, g2, d2) = (cos * (sx * fx), sin * (sy * fy), sin * (sx * fx), cos * (sy * fy));
    assert(a2 == a * fx && sn2 == sn * fy && g2 == g * fx && d2 == d * fy) by (nonlinear_arith)
        requires
            a == cos * sx,
            sn == sin * sy,
            g == sin * sx,
            d == cos * sy,
            a2 == cos * (sx * fx),
            sn2 == sin * (sy * fy),
            g2 == sin * (sx * fx),
            d2 == cos * (sy * fy),
    ;
    assert(sx * fx != 0real && sy * fy != 0real) by (nonlinear_arith)
        requires
            sx != 0real,
            sy != 0real,
            fx != 0real,
            fy != 0real,
    ;
    // what the new position is away from the point
    let (vx, vy) = (w.x - p.x, w.y - p.y);
    let (qx, qy) = (vx / fx, vy / fy);
    assert(w.x - n.x == qx && w.y - n.y == qy);
    lemma_mul_div_cancel(a, vx, fx);
    lemma_mul_div_cancel(sn, vy, fy);
    lemma_mul_div_cancel(g, vx, fx);
    lemma_mul_div_cancel(d, vy, fy);
    assert(a2 * qx == a * vx && sn2 * qy == sn * vy && g2 * qx == g * vx && d2 * qy == d * vy);
    // both sides, with the differences multiplied out
    lemma_distribute(a2, w.x, n.x);
    lemma_distribute(sn2, w.y, n.y);
    lemma_distribute(g2, w.x, n.x);
    lemma_distribute(d2, w.y, n.y);
    lemma_distribute(a, w.x, p.x);
    lemma_distribute(sn, w.y, p.y);
    lemma_distribute(g, w.x, p.x);
    lemma_distribute(d, w.y, p.y);
    lemma_mul_signs(n.x, a2);
    lemma_mul_signs(n.y, -sn2);
    lemma_mul_signs(n.y, sn2);
    lemma_mul_signs(sn2, w.y);
    lemma_mul_signs(n.x, g2);
    lemma_mul_signs(n.y, d2);
    lemma_mul_signs(p.x, a);
    lemma_mul_signs(p.y, -sn);
    lemma_mul_signs(p.y, sn);
    lemma_mul_signs(sn, w.y);
    lemma_mul_signs(p.x, g);
    lemma_mul_signs(p.y, d);
    assert(z.world_to_screen_coords(w) == c.world_to_screen_coords(w));
    lemma_round_trip(c, point);
}

/// How a pose matrix is made: move the origin of the pose to zero, scale,
/// rotate, and move zero to the target.
pub proof fn lemma_pose_factors(rotation: RealRotation, scale: Real2, origin: Real2, target: Real2)
    ensures
        pose_matrix(rotation, scale, origin, target) == RealMatrix4::translation(target).mul(
            RealMatrix4::rotation(rotation),
        ).mul(RealMatrix4::scaling(scale)).mul(
            RealMatrix4::translation(Real2 { x: -origin.x, y: -origin.y }),
        ),
{
    let (c, s, sx, sy) = (rotation.cos, rotation.sin, scale.x, scale.y);
    let (m00, m01, m10, m11) = (c * sx, -(s * sy), s * sx, c * sy);
    lemma_affine_product(1real, 0real, 0real, 1real, target.x, target.y, c, -s, s, c, 0real, 0real);
    lemma_affine_product(c, -s, s, c, target.x, target.y, sx, 0real, 0real, sy, 0real, 0real);
    lemma_affine_product(
        m00,
        m01,
        m10,
        m11,
        target.x,
        target.y,
        1real,
        0real,
        0real,
        1real,
        -origin.x,
        -origin.y,
    );
    lemma_mul_basics(c);
    lemma_mul_basics(s);
    lemma_mul_basics(-s);
    lemma_mul_basics(sx);
    lemma_mul_basics(sy);
    lemma_mul_basics(m00);
    lemma_mul_basics(m01);
    lemma_mul_basics(m10);
    lemma_mul_basics(m11);
    lemma_mul_basics(0real);
    lemma_mul_basics(1real);
    lemma_mul_signs(s, sy);
    lemma_mul_signs(m00, origin.x);
    lemma_mul_signs(m01, origin.y);
    lemma_mul_signs(m10, origin.x);
    lemma_mul_signs(m11, origin.y);
}

/// Composed rotations have the product of the rotations' matrices.
pub proof fn lemma_rotation_matrix_product(a: RealRotation, b: RealRotation)
    ensures
        RealMatrix4::rotation(a.compose(b)) == RealMatrix4::rotation(a).mul(
            RealMatrix4::rotation(b),
        ),
{
    lemma_affine_product(
        a.cos,
        -a.sin,
        a.sin,
        a.cos,
        0real,
        0real,
        b.cos,
        -b.sin,
        b.sin,
        b.cos,
        0real,
        0real,
    );
    lemma_mul_basics(a.cos);
    lemma_mul_basics(a.sin);
    lemma_mul_basics(-a.sin);
    lemma_mul_basics(0real);
    lemma_mul_signs(a.sin, b.sin);
    lemma_mul_signs(a.cos, b.sin);
    lemma_mul_signs(a.sin, b.cos);
}

/// The matrix under which a camera draws an object takes a local point to
/// where the camera shows its place in the world: the object's matrix is
/// applied first, the view matrix after it.
pub proof fn lemma_render_goes_through_world(c: RealCamera, t: RealTransform, p: Real2)
    ensures
        c.matrix().mul(t.matrix()).transform_point2(p) == c.world_to_screen_coords(
            t.matrix().transform_point2(p),
        ),
{
    let v = c.matrix();
    let l = t.matrix();
    lemma_affine_product(
        v.row0.x,
        v.row0.y,
        v.row1.x,
        v.row1.y,
        v.row0.w,
        v.row1.w,
        l.row0.x,
        l.row0.y,
        l.row1.x,
        l.row1.y,
        l.row0.w,
        l.row1.w,
    );
    lemma_affine_after_affine(
        v.row0.x,
        v.row0.y,
        v.row0.w,
        l.row0.x,
        l.row0.y,
        l.row0.w,
        l.row1.x,
        l.row1.y,
        l.row1.w,
        p.x,
        p.y,
    );
    lemma_affine_after_affine(
        v.row1.x,
        v.row1.y,
        v.row1.w,
        l.row0.x,
        l.row0.y,
        l.row0.w,
        l.row1.x,
        l.row1.y,
        l.row1.w,
        p.x,
        p.y,
    );
}

/// The four scalar products of the rows of `m` with the column `c`.
pub open spec fn matrix_times_column(m: RealMatrix4, c: Real4) -> Real4 {
    Real4 { x: m.row0.dot(c), y: m.row1.dot(c), z: m.row2.dot(c), w: m.row3.dot(c) }
}

/// A row times a matrix times a column, bracketed either way.
proof fn lemma_row_matrix_column(a: Real4, m: RealMatrix4, c: Real4)
    ensures
        a.mul_matrix(m).dot(c) == a.dot(matrix_times_column(m, c)),
{
    lemma_distribute4(c.x, a.x * m.row0.x, a.y * m.row1.x, a.z * m.row2.x, a.w * m.row3.x);
    lemma_distribute4(c.y, a.x * m.row0.y, a.y * m.row1.y, a.z * m.row2.y, a.w * m.row3.y);
    lemma_distribute4(c.z, a.x * m.row0.z, a.y * m.row1.z, a.z * m.row2.z, a.w * m.row3.z);
    lemma_distribute4(c.w, a.x * m.row0.w, a.y * m.row1.w, a.z * m.row2.w, a.w * m.row3.w);
    lemma_distribute4(a.x, m.row0.x * c.x, m.row0.y * c.y, m.row0.z * c.z, m.row0.w * c.w);
    lemma_distribute4(a.y, m.row1.x * c.x, m.row1.y * c.y, m.row1.z * c.z, m.row1.w * c.w);
    lemma_distribute4(a.z, m.row2.x * c.x, m.row2.y * c.y, m.row2.z * c.z, m.row2.w * c.w);
    lemma_distribute4(a.w, m.row3.x * c.x, m.row3.y * c.y, m.row3.z * c.z, m.row3.w * c.w);
    lemma_mul_assoc(a.x, m.row0.x, c.x);
    lemma_mul_assoc(a.x, m.row0.y, c.y);
    lemma_mul_assoc(a.x, m.row0.z, c.z);
    lemma_mul_assoc(a.x, m.row0.w, c.w);
    lemma_mul_assoc(a.y, m.row1.x, c.x);
    lemma_mul_assoc(a.y, m.row1.y, c.y);
    lemma_mul_assoc(a.y, m.row1.z, c.z);
    lemma_mul_assoc(a.y, m.row1.w, c.w);
    lemma_mul_assoc(a.z, m.row2.x, c.x);
    lemma_mul_assoc(a.z, m.row2.y, c.y);
    lemma_mul_assoc(a.z, m.row2.z, c.z);
    lemma_mul_assoc(a.z, m.row2.w, c.w);
    lemma_mul_assoc(a.w, m.row3.x, c.x);
    lemma_mul_assoc(a.w, m.row3.y, c.y);
    lemma_mul_assoc(a.w, m.row3.z, c.z);
    lemma_mul_assoc(a.w, m.row3.w, c.w);
}

/// One row of a product of three matrices, bracketed either way.
proof fn lemma_row_associative(a: Real4, b: RealMatrix4, c: RealMatrix4)
    ensures
        a.mul_matrix(b).mul_matrix(c) == a.mul_matrix(b.mul(c)),
{
    lemma_row_matrix_column(a, b, c.col0());
    lemma_row_matrix_column(a, b, c.col1());
    lemma_row_matrix_column(a, b, c.col2());
    lemma_row_matrix_column(a, b, c.col3());
}

/// The matrix product is associative: a chain of parents can be multiplied
/// in any bracketing.
pub proof fn lemma_mul_associative(a: RealMatrix4, b: RealMatrix4, c: RealMatrix4)
    ensures
        a.mul(b).mul(c) == a.mul(b.mul(c)),
{
    lemma_row_associative(a.row0, b, c);
    lemma_row_associative(a.row1, b, c);
    lemma_row_associative(a.row2, b, c);
    lemma_row_associative(a.row3, b, c);
}

/// The identity matrix is neutral for the product.
pub proof fn lemma_mul_identity(a: RealMatrix4)
    ensures
        a.mul(RealMatrix4::identity()) == a,
        RealMatrix4::identity().mul(a) == a,
{
    lemma_mul_basics(a.row0.x);
    lemma_mul_basics(a.row0.y);
    lemma_mul_basics(a.row0.z);
    lemma_mul_basics(a.row0.w);
    lemma_mul_basics(a.row1.x);
    lemma_mul_basics(a.row1.y);
    lemma_mul_basics(a.row1.z);
    lemma_mul_basics(a.row1.w);
    lemma_mul_basics(a.row2.x);
    lemma_mul_basics(a.row2.y);
    lemma_mul_basics(a.row2.z);
    lemma_mul_basics(a.row2.w);
    lemma_mul_basics(a.row3.x);
    lemma_mul_basics(a.row3.y);
    lemma_mul_basics(a.row3.z);
    lemma_mul_basics(a.row3.w);
}

} // verus!
