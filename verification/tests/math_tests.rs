use rhythm::math::Mat2;
use rhythm::math::Mat2x3;
use rhythm::math::Mat2x4;
use rhythm::math::Mat3;
use rhythm::math::Mat3x2;
use rhythm::math::Mat3x4;
use rhythm::math::Mat4;
use rhythm::math::Mat4x2;
use rhythm::math::Mat4x3;
use rhythm::math::V2;
use rhythm::math::V3;
use rhythm::math::V4;
use rhythm::products::CrossProduct;
use rhythm::products::DotProduct;
use rhythm::products::EntrywiseProduct;

#[test]
fn new_test() {
  assert_eq!(V2::new(2), V2(2, 2));
  assert_eq!(V3::new(3), V3(3, 3, 3));
  assert_eq!(V4::new(4), V4(4, 4, 4, 4));
}

#[test]
fn all_test() {
  assert_eq!(Mat2::all(2), Mat2(V2::new(2), V2::new(2)));
  assert_eq!(Mat2x3::all(2), Mat2x3(V3::new(2), V3::new(2)));
  assert_eq!(Mat2x4::all(2), Mat2x4(V4::new(2), V4::new(2)));
  assert_eq!(Mat3::all(3), Mat3(V3::new(3), V3::new(3), V3::new(3)));
  assert_eq!(Mat3x2::all(3), Mat3x2(V2::new(3), V2::new(3), V2::new(3)));
  assert_eq!(Mat3x4::all(3), Mat3x4(V4::new(3), V4::new(3), V4::new(3)));
  assert_eq!(
    Mat4::all(4),
    Mat4(V4::new(4), V4::new(4), V4::new(4), V4::new(4))
  );
  assert_eq!(
    Mat4x2::all(4),
    Mat4x2(V2::new(4), V2::new(4), V2::new(4), V2::new(4))
  );
  assert_eq!(
    Mat4x3::all(4),
    Mat4x3(V3::new(4), V3::new(4), V3::new(4), V3::new(4))
  );
}

#[test]
fn add_test() {
  assert_eq!(V2(1, 2) + V2(3, 4), V2(4, 6));
  assert_eq!(V3(1, 2, 3) + V3(4, 5, 6), V3(5, 7, 9));
  assert_eq!(V4(1, 2, 3, 4) + V4(5, 6, 7, 8), V4(6, 8, 10, 12));
  assert_eq!(Mat2::all(1) + Mat2::all(2), Mat2::all(3));
  assert_eq!(Mat2x3::all(1) + Mat2x3::all(2), Mat2x3::all(3));
  assert_eq!(Mat2x4::all(1) + Mat2x4::all(2), Mat2x4::all(3));
  assert_eq!(Mat3::all(1) + Mat3::all(2), Mat3::all(3));
  assert_eq!(Mat3x2::all(1) + Mat3x2::all(2), Mat3x2::all(3));
  assert_eq!(Mat3x4::all(1) + Mat3x4::all(2), Mat3x4::all(3));
  assert_eq!(Mat4::all(1) + Mat4::all(2), Mat4::all(3));
  assert_eq!(Mat4x2::all(1) + Mat4x2::all(2), Mat4x2::all(3));
  assert_eq!(Mat4x3::all(1) + Mat4x3::all(2), Mat4x3::all(3));
}

#[test]
fn sub_test() {
  assert_eq!(V2(1, 2) - V2(3, 4), V2(-2, -2));
  assert_eq!(V3(1, 2, 3) - V3(4, 5, 6), V3(-3, -3, -3));
  assert_eq!(V4(1, 2, 3, 4) - V4(5, 6, 7, 8), V4(-4, -4, -4, -4));
  assert_eq!(Mat2::all(1) - Mat2::all(2), Mat2::all(-1));
  assert_eq!(Mat2x3::all(1) - Mat2x3::all(2), Mat2x3::all(-1));
  assert_eq!(Mat2x4::all(1) - Mat2x4::all(2), Mat2x4::all(-1));
  assert_eq!(Mat3::all(1) - Mat3::all(2), Mat3::all(-1));
  assert_eq!(Mat3x2::all(1) - Mat3x2::all(2), Mat3x2::all(-1));
  assert_eq!(Mat3x4::all(1) - Mat3x4::all(2), Mat3x4::all(-1));
  assert_eq!(Mat4::all(1) - Mat4::all(2), Mat4::all(-1));
  assert_eq!(Mat4x2::all(1) - Mat4x2::all(2), Mat4x2::all(-1));
  assert_eq!(Mat4x3::all(1) - Mat4x3::all(2), Mat4x3::all(-1));
}

#[test]
fn vec_mul_test() {
  assert_eq!(V2(1, 2) * 2, V2(2, 4));
  assert_eq!(V3(1, 2, 3) * 2, V3(2, 4, 6));
  assert_eq!(V4(1, 2, 3, 4) * 2, V4(2, 4, 6, 8));
}

#[test]
fn mat2_mul_test() {
  assert_eq!(Mat2(V2(1, 2), V2(3, 4)) * V2(5, 6), V2(23, 34));
  assert_eq!(
    Mat2(V2(1, 2), V2(3, 4)) * Mat2(V2(5, 6), V2(7, 8)),
    Mat2(V2(23, 34), V2(31, 46))
  );
  assert_eq!(
    Mat2(V2(1, 2), V2(3, 4)) * Mat3x2(V2(5, 6), V2(7, 8), V2(9, 10)),
    Mat3x2(V2(23, 34), V2(31, 46), V2(39, 58))
  );
  assert_eq!(
    Mat2(V2(1, 2), V2(3, 4))
      * Mat4x2(V2(5, 6), V2(7, 8), V2(9, 10), V2(11, 12)),
    Mat4x2(V2(23, 34), V2(31, 46), V2(39, 58), V2(47, 70))
  );
}

#[test]
fn mat2x3_mul_test() {
  assert_eq!(Mat2x3(V3(1, 2, 3), V3(4, 5, 6)) * V2(7, 8), V3(39, 54, 69));
  assert_eq!(
    Mat2x3(V3(1, 2, 3), V3(4, 5, 6)) * Mat2(V2(7, 8), V2(9, 10)),
    Mat2x3(V3(39, 54, 69), V3(49, 68, 87))
  );
  assert_eq!(
    Mat2x3(V3(1, 2, 3), V3(4, 5, 6))
      * Mat3x2(V2(7, 8), V2(9, 10), V2(11, 12)),
    Mat3(V3(39, 54, 69), V3(49, 68, 87), V3(59, 82, 105))
  );
}

#[test]
fn mat2x4_mul_test() {
  assert_eq!(
    Mat2x4(V4(1, 2, 3, 4), V4(5, 6, 7, 8)) * V2(9, 10),
    V4(59, 78, 97, 116)
  );
  assert_eq!(
    Mat2x4(V4(1, 2, 3, 4), V4(5, 6, 7, 8))
      * Mat3x2(V2(9, 10), V2(11, 12), V2(13, 14)),
    Mat3x4(
      V4(59, 78, 97, 116),
      V4(71, 94, 117, 140),
      V4(83, 110, 137, 164)
    )
  );
  assert_eq!(
    Mat2x4(V4(1, 2, 3, 4), V4(5, 6, 7, 8))
      * Mat4x2(V2(9, 10), V2(11, 12), V2(13, 14), V2(15, 16)),
    Mat4(
      V4(59, 78, 97, 116),
      V4(71, 94, 117, 140),
      V4(83, 110, 137, 164),
      V4(95, 126, 157, 188)
    )
  );
}

#[test]
fn mat3_mul_test() {
  assert_eq!(
    Mat3(V3(1, 2, 3), V3(4, 5, 6), V3(7, 8, 9)) * V3(10, 11, 12),
    V3(138, 171, 204)
  );
  assert_eq!(
    Mat3(V3(1, 2, 3), V3(4, 5, 6), V3(7, 8, 9))
      * Mat2x3(V3(10, 11, 12), V3(13, 14, 15)),
    Mat2x3(V3(138, 171, 204), V3(174, 216, 258))
  );
  assert_eq!(
    Mat3(V3(1, 2, 3), V3(4, 5, 6), V3(7, 8, 9))
      * Mat4x3(
        V3(10, 11, 12),
        V3(13, 14, 15),
        V3(16, 17, 18),
        V3(19, 20, 21)
      ),
    Mat4x3(
      V3(138, 171, 204),
      V3(174, 216, 258),
      V3(210, 261, 312),
      V3(246, 306, 366)
    )
  );
}

#[test]
fn mat3x2_mul_test() {
  assert_eq!(
    Mat3x2(V2(1, 2), V2(3, 4), V2(5, 6)) * V3(7, 8, 9),
    V2(76, 100)
  );
  assert_eq!(
    Mat3x2(V2(1, 2), V2(3, 4), V2(5, 6))
      * Mat2x3(V3(10, 11, 12), V3(13, 14, 15)),
    Mat2(V2(103, 136), V2(130, 172))
  );
  assert_eq!(
    Mat3x2(V2(1, 2), V2(3, 4), V2(5, 6))
      * Mat4x3(
        V3(10, 11, 12),
        V3(13, 14, 15),
        V3(16, 17, 18),
        V3(19, 20, 21)
      ),
    Mat4x2(V2(103, 136), V2(130, 172), V2(157, 208), V2(184, 244))
  );
}

#[test]
fn mat3x4_mul_test() {
  assert_eq!(
    Mat3x4(V4(1, 2, 3, 4), V4(5, 6, 7, 8), V4(9, 10, 11, 12))
      * V3(13, 14, 15),
    V4(218, 260, 302, 344)
  );
  assert_eq!(
    Mat3x4(V4(1, 2, 3, 4), V4(5, 6, 7, 8), V4(9, 10, 11, 12))
      * Mat2x3(V3(13, 14, 15), V3(16, 17, 18)),
    Mat2x4(V4(218, 260, 302, 344), V4(263, 314, 365, 416))
  );
  assert_eq!(
    Mat3x4(V4(1, 2, 3, 4), V4(5, 6, 7, 8), V4(9, 10, 11, 12))
      * Mat3(V3(13, 14, 15), V3(16, 17, 18), V3(19, 20, 21)),
    Mat3x4(
      V4(218, 260, 302, 344),
      V4(263, 314, 365, 416),
      V4(308, 368, 428, 488)
    )
  );
  assert_eq!(
    Mat3x4(V4(1, 2, 3, 4), V4(5, 6, 7, 8), V4(9, 10, 11, 12))
      * Mat4x3(
        V3(13, 14, 15),
        V3(16, 17, 18),
        V3(19, 20, 21),
        V3(22, 23, 24)
      ),
    Mat4(
      V4(218, 260, 302, 344),
      V4(263, 314, 365, 416),
      V4(308, 368, 428, 488),
      V4(353, 422, 491, 560)
    )
  );
}

#[test]
fn mat4_mul_test() {
  assert_eq!(
    Mat4(
      V4(1, 2, 3, 4),
      V4(5, 6, 7, 8),
      V4(9, 10, 11, 12),
      V4(13, 14, 15, 16)
    ) * V4(17, 18, 19, 20),
    V4(538, 612, 686, 760)
  );
  assert_eq!(
    Mat4(
      V4(1, 2, 3, 4),
      V4(5, 6, 7, 8),
      V4(9, 10, 11, 12),
      V4(13, 14, 15, 16)
    ) * Mat2x4(V4(17, 18, 19, 20), V4(21, 22, 23, 24)),
    Mat2x4(V4(538, 612, 686, 760), V4(650, 740, 830, 920))
  );
  assert_eq!(
    Mat4(
      V4(1, 2, 3, 4),
      V4(5, 6, 7, 8),
      V4(9, 10, 11, 12),
      V4(13, 14, 15, 16)
    ) * Mat3x4(V4(17, 18, 19, 20), V4(21, 22, 23, 24), V4(25, 26, 27, 28)),
    Mat3x4(
      V4(538, 612, 686, 760),
      V4(650, 740, 830, 920),
      V4(762, 868, 974, 1080)
    )
  );
  assert_eq!(
    Mat4(
      V4(1, 2, 3, 4),
      V4(5, 6, 7, 8),
      V4(9, 10, 11, 12),
      V4(13, 14, 15, 16)
    ) * Mat4(
      V4(17, 18, 19, 20),
      V4(21, 22, 23, 24),
      V4(25, 26, 27, 28),
      V4(29, 30, 31, 32)
    ),
    Mat4(
      V4(538, 612, 686, 760),
      V4(650, 740, 830, 920),
      V4(762, 868, 974, 1080),
      V4(874, 996, 1118, 1240)
    )
  );
}

#[test]
fn mat4x2_mul_test() {
  assert_eq!(
    Mat4x2(V2(1, 2), V2(3, 4), V2(5, 6), V2(7, 8)) * V4(9, 10, 11, 12),
    V2(178, 220)
  );
  assert_eq!(
    Mat4x2(V2(1, 2), V2(3, 4), V2(5, 6), V2(7, 8))
      * Mat2x4(V4(9, 10, 11, 12), V4(13, 14, 15, 16)),
    Mat2(V2(178, 220), V2(242, 300))
  );
  assert_eq!(
    Mat4x2(V2(1, 2), V2(3, 4), V2(5, 6), V2(7, 8))
      * Mat3x4(V4(9, 10, 11, 12), V4(13, 14, 15, 16), V4(17, 18, 19, 20)),
    Mat3x2(V2(178, 220), V2(242, 300), V2(306, 380))
  );
  assert_eq!(
    Mat4x2(V2(1, 2), V2(3, 4), V2(5, 6), V2(7, 8))
      * Mat4(
        V4(9, 10, 11, 12),
        V4(13, 14, 15, 16),
        V4(17, 18, 19, 20),
        V4(21, 22, 23, 24)
      ),
    Mat4x2(V2(178, 220), V2(242, 300), V2(306, 380), V2(370, 460))
  );
}

#[test]
fn mat4x3_mul_test() {
  assert_eq!(
    Mat4x3(V3(1, 2, 3), V3(4, 5, 6), V3(7, 8, 9), V3(10, 11, 12))
      * V4(13, 14, 15, 16),
    V3(334, 392, 450)
  );
  assert_eq!(
    Mat4x3(V3(1, 2, 3), V3(4, 5, 6), V3(7, 8, 9), V3(10, 11, 12))
      * Mat2x4(V4(13, 14, 15, 16), V4(17, 18, 19, 20)),
    Mat2x3(V3(334, 392, 450), V3(422, 496, 570))
  );
  assert_eq!(
    Mat4x3(V3(1, 2, 3), V3(4, 5, 6), V3(7, 8, 9), V3(10, 11, 12))
      * Mat3x4(V4(13, 14, 15, 16), V4(17, 18, 19, 20), V4(21, 22, 23, 24)),
    Mat3(V3(334, 392, 450), V3(422, 496, 570), V3(510, 600, 690))
  );
  assert_eq!(
    Mat4x3(V3(1, 2, 3), V3(4, 5, 6), V3(7, 8, 9), V3(10, 11, 12))
      * Mat4(
        V4(13, 14, 15, 16),
        V4(17, 18, 19, 20),
        V4(21, 22, 23, 24),
        V4(25, 26, 27, 28)
      ),
    Mat4x3(
      V3(334, 392, 450),
      V3(422, 496, 570),
      V3(510, 600, 690),
      V3(598, 704, 810)
    )
  );
}

#[test]
fn div_test() {
  assert_eq!(V2::new(2.0) / 2.0, V2::new(1.0));
  assert_eq!(V3::new(3.0) / 3.0, V3::new(1.0));
  assert_eq!(V4::new(4.0) / 4.0, V4::new(1.0));
  assert_eq!(Mat2::all(2.0) / 2.0, Mat2::all(1.0));
  assert_eq!(Mat2x3::all(2.0) / 2.0, Mat2x3::all(1.0));
  assert_eq!(Mat2x4::all(2.0) / 2.0, Mat2x4::all(1.0));
  assert_eq!(Mat3::all(3.0) / 3.0, Mat3::all(1.0));
  assert_eq!(Mat3x2::all(3.0) / 3.0, Mat3x2::all(1.0));
  assert_eq!(Mat3x4::all(3.0) / 3.0, Mat3x4::all(1.0));
  assert_eq!(Mat4::all(4.0) / 4.0, Mat4::all(1.0));
  assert_eq!(Mat4x2::all(4.0) / 4.0, Mat4x2::all(1.0));
  assert_eq!(Mat4x3::all(4.0) / 4.0, Mat4x3::all(1.0));
}

#[test]
fn entrywise_product_test() {
  assert_eq!(Mat2::all(2.0).entrywise(Mat2::all(2.0)), Mat2::all(4.0));
  assert_eq!(
    Mat2x3::all(2.0).entrywise(Mat2x3::all(2.0)),
    Mat2x3::all(4.0)
  );
  assert_eq!(
    Mat2x4::all(2.0).entrywise(Mat2x4::all(2.0)),
    Mat2x4::all(4.0)
  );
  assert_eq!(Mat3::all(3.0).entrywise(Mat3::all(3.0)), Mat3::all(9.0));
  assert_eq!(
    Mat3x2::all(3.0).entrywise(Mat3x2::all(3.0)),
    Mat3x2::all(9.0)
  );
  assert_eq!(
    Mat3x4::all(3.0).entrywise(Mat3x4::all(3.0)),
    Mat3x4::all(9.0)
  );
  assert_eq!(Mat4::all(4.0).entrywise(Mat4::all(4.0)), Mat4::all(16.0));
  assert_eq!(
    Mat4x2::all(4.0).entrywise(Mat4x2::all(4.0)),
    Mat4x2::all(16.0)
  );
  assert_eq!(
    Mat4x3::all(4.0).entrywise(Mat4x3::all(4.0)),
    Mat4x3::all(16.0)
  );
}

#[test]
fn dot_test() {
  assert_eq!(V2(1, 2).dot(V2(3, 4)), 11);
  assert_eq!(V3(1, 2, 3).dot(V3(4, 5, 6)), 32);
  assert_eq!(V4(1, 2, 3, 4).dot(V4(5, 6, 7, 8)), 70);
}

#[test]
fn cross_test() {
  assert_eq!(V3(1, 0, 0).cross(V3(0, 1, 0)), V3(0, 0, 1))
}
