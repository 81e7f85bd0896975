use vstd::prelude::*;

use crate::float::F32x4;

verus! {

// Each accessor is named by four lane letters (`x` = 0, `y` = 1, `z` = 2,
// `w` = 3); letter `i` names the source lane copied to output lane `i`.
impl F32x4 {
    /// Lanes `x`, `x`, `x`, `x` of `self`.
    pub fn xxxx(self) -> (r: F32x4)
        ensures
            r@ == seq![self@[0], self@[0], self@[0], self@[0]],
    {
        self.swizzle(0)
    }

    /// Lanes `y`, `x`, `x`, `x` of `self`.
    pub fn yxxx(self) -> (r: F32x4)
        ensures
            r@ == seq![self@[1], self@[0], self@[0], self@[0]],
    {
        self.swizzle(1)
    }

    /// Lanes `z`, `x`, `x`, `x` of `self`.
    pub fn zxxx(self) -> (r: F32x4)
        ensures
            r@ == seq![self@[2], self@[0], self@[0], self@[0]],
    {
        self.swizzle(2)
    }

    /// Lanes `w`, `x`, `x`, `x` of `self`.
    pub fn wxxx(self) -> (r: F32x4)
        ensures
            r@ == seq![self@[3], self@[0], self@[0], self@[0]],
    {
        self.swizzle(3)
    }

    /// Lanes `x`, `y`, `x`, `x` of `self`.
    pub fn xyxx(self) -> (r: F32x4)
        ensures
            r@ == seq![self@[0], self@[1], self@[0], self@[0]],
    {
        self.swizzle(4)
    }

    /// Lanes `y`, `y`, `x`, `x` of `self`.
    pub fn yyxx(self) -> (r: F32x4)
        ensures
            r@ == seq![self@[1], self@[1], self@[0], self@[0]],
    {
        self.swizzle(5)
    }

    /// Lanes `z`, `y`, `x`, `x` of `self`.
    pub fn zyxx(self) -> (r: F32x4)
        ensures
            r@ == seq![self@[2], self@[1], self@[0], self@[0]],
    {
        self.swizzle(6)
    }

    /// Lanes `w`, `y`, `x`, `x` of `self`.
    pub fn wyxx(self) -> (r: F32x4)
        ensures
            r@ == seq![self@[3], self@[1], self@[0], self@[0]],
    {
        self.swizzle(7)
    }

    /// Lanes `x`, `z`, `x`, `x` of `self`.
    pub fn xzxx(self) -> (r: F32x4)
        ensures
            r@ == seq![self@[0], self@[2], self@[0], self@[0]],
    {
        self.swizzle(8)
    }

    /// Lanes `y`, `z`, `x`, `x` of `self`.
    pub fn yzxx(self) -> (r: F32x4)
        ensures
            r@ == seq![self@[1], self@[2], self@[0], self@[0]],
    {
        self.swizzle(9)
    }

    /// Lanes `z`, `z`, `x`, `x` of `self`.
    pub fn zzxx(self) -> (r: F32x4)
        ensures
            r@ == seq![self@[2], self@[2], self@[0], self@[0]],
    {
        self.swizzle(10)
    }

    /// Lanes `w`, `z`, `x`, `x` of `self`.
    pub fn wzxx(self) -> (r: F32x4)
        ensures
            r@ == seq![self@[3], self@[2], self@[0], self@[0]],
    {
        self.swizzle(11)
    }

    /// Lanes `x`, `w`, `x`, `x` of `self`.
    pub fn xwxx(self) -> (r: F32x4)
        ensures
            r@ == seq![self@[0], self@[3], self@[0], self@[0]],
    {
        self.swizzle(12)
    }

    /// Lanes `y`, `w`, `x`, `x` of `self`.
    pub fn ywxx(self) -> (r: F32x4)
        ensures
            r@ == seq![self@[1], self@[3], self@[0], self@[0]],
    {
        self.swizzle(13)
    }

    /// Lanes `z`, `w`, `x`, `x` of `self`.
    pub fn zwxx(self) -> (r: F32x4)
        ensures
            r@ == seq![self@[2], self@[3], self@[0], self@[0]],
    {
        self.swizzle(14)
    }

    /// Lanes `w`, `w`, `x`, `x` of `self`.
    pub fn wwxx(self) -> (r: F32x4)
        ensures
            r@ == seq![self@[3], self@[3], self@[0], self@[0]],
    {
        self.swizzle(15)
    }

    /// Lanes `x`, `x`, `y`, `x` of `self`.
    pub fn xxyx(self) -> (r: F32x4)
        ensures
            r@ == seq![self@[0], self@[0], self@[1], self@[0]],
    {
        self.swizzle(16)
    }

    /// Lanes `y`, `x`, `y`, `x` of `self`.
    pub fn yxyx(self) -> (r: F32x4)
        ensures
            r@ == seq![self@[1], self@[0], self@[1], self@[0]],
    {
        self.swizzle(17)
    }

    /// Lanes `z`, `x`, `y`, `x` of `self`.
    pub fn zxyx(self) -> (r: F32x4)
        ensures
            r@ == seq![self@[2], self@[0], self@[1], self@[0]],
    {
        self.swizzle(18)
    }

    /// Lanes `w`, `x`, `y`, `x` of `self`.
    pub fn wxyx(self) -> (r: F32x4)
        ensures
            r@ == seq![self@[3], self@[0], self@[1], self@[0]],
    {
        self.swizzle(19)
    }

    /// Lanes `x`, `y`, `y`, `x` of `self`.
    pub fn xyyx(self) -> (r: F32x4)
        ensures
            r@ == seq![self@[0], self@[1], self@[1], self@[0]],
    {
        self.swizzle(20)
    }

    /// Lanes `y`, `y`, `y`, `x` of `self`.
    pub fn yyyx(self) -> (r: F32x4)
        ensures
            r@ == seq![self@[1], self@[1], self@[1], self@[0]],
    {
        self.swizzle(21)
    }

    /// Lanes `z`, `y`, `y`, `x` of `self`.
    pub fn zyyx(self) -> (r: F32x4)
        ensures
            r@ == seq![self@[2], self@[1], self@[1], self@[0]],
    {
        self.swizzle(22)
    }

    /// Lanes `w`, `y`, `y`, `x` of `self`.
    pub fn wyyx(self) -> (r: F32x4)
        ensures
            r@ == seq![self@[3], self@[1], self@[1], self@[0]],
    {
        self.swizzle(23)
    }

    /// Lanes `x`, `z`, `y`, `x` of `self`.
    pub fn xzyx(self) -> (r: F32x4)
        ensures
            r@ == seq![self@[0], self@[2], self@[1], self@[0]],
    {
        self.swizzle(24)
    }

    /// Lanes `y`, `z`, `y`, `x` of `self`.
    pub fn yzyx(self) -> (r: F32x4)
        ensures
            r@ == seq![self@[1], self@[2], self@[1], self@[0]],
    {
        self.swizzle(25)
    }

    /// Lanes `z`, `z`, `y`, `x` of `self`.
    pub fn zzyx(self) -> (r: F32x4)
        ensures
            r@ == seq![self@[2], self@[2], self@[1], self@[0]],
    {
        self.swizzle(26)
    }

    /// Lanes `w`, `z`, `y`, `x` of `self`.
    pub fn wzyx(self) -> (r: F32x4)
        ensures
            r@ == seq![self@[3], self@[2], self@[1], self@[0]],
    {
        self.swizzle(27)
    }

    /// Lanes `x`, `w`, `y`, `x` of `self`.
    pub fn xwyx(self) -> (r: F32x4)
        ensures
            r@ == seq![self@[0], self@[3], self@[1], self@[0]],
    {
        self.swizzle(28)
    }

    /// Lanes `y`, `w`, `y`, `x` of `self`.
    pub fn ywyx(self) -> (r: F32x4)
        ensures
            r@ == seq![self@[1], self@[3], self@[1], self@[0]],
    {
        self.swizzle(29)
    }

    /// Lanes `z`, `w`, `y`, `x` of `self`.
    pub fn zwyx(self) -> (r: F32x4)
        ensures
            r@ == seq![self@[2], self@[3], self@[1], self@[0]],
    {
        self.swizzle(30)
    }

    /// Lanes `w`, `w`, `y`, `x` of `self`.
    pub fn wwyx(self) -> (r: F32x4)
        ensures
            r@ == seq![self@[3], self@[3], self@[1], self@[0]],
    {
        self.swizzle(31)
    }

    /// Lanes `x`, `x`, `z`, `x` of `self`.
    pub fn xxzx(self) -> (r: F32x4)
        ensures
            r@ == seq![self@[0], self@[0], self@[2], self@[0]],
    {
        self.swizzle(32)
    }

    /// Lanes `y`, `x`, `z`, `x` of `self`.
    pub fn yxzx(self) -> (r: F32x4)
        ensures
            r@ == seq![self@[1], self@[0], self@[2], self@[0]],
    {
        self.swizzle(33)
    }

    /// Lanes `z`, `x`, `z`, `x` of `self`.
    pub fn zxzx(self) -> (r: F32x4)
        ensures
            r@ == seq![self@[2], self@[0], self@[2], self@[0]],
    {
        self.swizzle(34)
    }

    /// Lanes `w`, `x`, `z`, `x` of `self`.
    pub fn wxzx(self) -> (r: F32x4)
        ensures
            r@ == seq![self@[3], self@[0], self@[2], self@[0]],
    {
        self.swizzle(35)
    }

    /// Lanes `x`, `y`, `z`, `x` of `self`.
    pub fn xyzx(self) -> (r: F32x4)
        ensures
            r@ == seq![self@[0], self@[1], self@[2], self@[0]],
    {
        self.swizzle(36)
    }

    /// Lanes `y`, `y`, `z`, `x` of `self`.
    pub fn yyzx(self) -> (r: F32x4)
        ensures
            r@ == seq![self@[1], self@[1], self@[2], self@[0]],
    {
        self.swizzle(37)
    }

    /// Lanes `z`, `y`, `z`, `x` of `self`.
    pub fn zyzx(self) -> (r: F32x4)
        ensures
            r@ == seq![self@[2], self@[1], self@[2], self@[0]],
    {
        self.swizzle(38)
    }

    /// Lanes `w`, `y`, `z`, `x` of `self`.
    pub fn wyzx(self) -> (r: F32x4)
        ensures
            r@ == seq![self@[3], self@[1], self@[2], self@[0]],
    {
        self.swizzle(39)
    }

    /// Lanes `x`, `z`, `z`, `x` of `self`.
    pub fn xzzx(self) -> (r: F32x4)
        ensures
            r@ == seq![self@[0], self@[2], self@[2], self@[0]],
    {
        self.swizzle(40)
    }

    /// Lanes `y`, `z`, `z`, `x` of `self`.
    pub fn yzzx(self) -> (r: F32x4)
        ensures
            r@ == seq![self@[1], self@[2], self@[2], self@[0]],
    {
        self.swizzle(41)
    }

    /// Lanes `z`, `z`, `z`, `x` of `self`.
    pub fn zzzx(self) -> (r: F32x4)
        ensures
            r@ == seq![self@[2], self@[2], self@[2], self@[0]],
    {
        self.swizzle(42)
    }

    /// Lanes `w`, `z`, `z`, `x` of `self`.
    pub fn wzzx(self) -> (r: F32x4)
        ensures
            r@ == seq![self@[3], self@[2], self@[2], self@[0]],
    {
        self.swizzle(43)
    }

    /// Lanes `x`, `w`, `z`, `x` of `self`.
    pub fn xwzx(self) -> (r: F32x4)
        ensures
            r@ == seq![self@[0], self@[3], self@[2], self@[0]],
    {
        self.swizzle(44)
    }

    /// Lanes `y`, `w`, `z`, `x` of `self`.
    pub fn ywzx(self) -> (r: F32x4)
        ensures
            r@ == seq![self@[1], self@[3], self@[2], self@[0]],
    {
        self.swizzle(45)
    }

    /// Lanes `z`, `w`, `z`, `x` of `self`.
    pub fn zwzx(self) -> (r: F32x4)
        ensures
            r@ == seq![self@[2], self@[3], self@[2], self@[0]],
    {
        self.swizzle(46)
    }

    /// Lanes `w`, `w`, `z`, `x` of `self`.
    pub fn wwzx(self) -> (r: F32x4)
        ensures
            r@ == seq![self@[3], self@[3], self@[2], self@[0]],
    {
        self.swizzle(47)
    }

    /// Lanes `x`, `x`, `w`, `x` of `self`.
    pub fn xxwx(self) -> (r: F32x4)
        ensures
            r@ == seq![self@[0], self@[0], self@[3], self@[0]],
    {
        self.swizzle(48)
    }

    /// Lanes `y`, `x`, `w`, `x` of `self`.
    pub fn yxwx(self) -> (r: F32x4)
        ensures
            r@ == seq![self@[1], self@[0], self@[3], self@[0]],
    {
        self.swizzle(49)
    }

    /// Lanes `z`, `x`, `w`, `x` of `self`.
    pub fn zxwx(self) -> (r: F32x4)
        ensures
            r@ == seq![self@[2], self@[0], self@[3], self@[0]],
    {
        self.swizzle(50)
    }

    /// Lanes `w`, `x`, `w`, `x` of `self`.
    pub fn wxwx(self) -> (r: F32x4)
        ensures
            r@ == seq![self@[3], self@[0], self@[3], self@[0]],
    {
        self.swizzle(51)
    }

    /// Lanes `x`, `y`, `w`, `x` of `self`.
    pub fn xywx(self) -> (r: F32x4)
        ensures
            r@ == seq![self@[0], self@[1], self@[3], self@[0]],
    {
        self.swizzle(52)
    }

    /// Lanes `y`, `y`, `w`, `x` of `self`.
    pub fn yywx(self) -> (r: F32x4)
        ensures
            r@ == seq![self@[1], self@[1], self@[3], self@[0]],
    {
        self.swizzle(53)
    }

    /// Lanes `z`, `y`, `w`, `x` of `self`.
    pub fn zywx(self) -> (r: F32x4)
        ensures
            r@ == seq![self@[2], self@[1], self@[3], self@[0]],
    {
        self.swizzle(54)
    }

    /// Lanes `w`, `y`, `w`, `x` of `self`.
    pub fn wywx(self) -> (r: F32x4)
        ensures
            r@ == seq![self@[3], self@[1], self@[3], self@[0]],
    {
        self.swizzle(55)
    }

    /// Lanes `x`, `z`, `w`, `x` of `self`.
    pub fn xzwx(self) -> (r: F32x4)
        ensures
            r@ == seq![self@[0], self@[2], self@[3], self@[0]],
    {
        self.swizzle(56)
    }

    /// Lanes `y`, `z`, `w`, `x` of `self`.
    pub fn yzwx(self) -> (r: F32x4)
        ensures
            r@ == seq![self@[1], self@[2], self@[3], self@[0]],
    {
        self.swizzle(57)
    }

    /// Lanes `z`, `z`, `w`, `x` of `self`.
    pub fn zzwx(self) -> (r: F32x4)
        ensures
            r@ == seq![self@[2], self@[2], self@[3], self@[0]],
    {
        self.swizzle(58)
    }

    /// Lanes `w`, `z`, `w`, `x` of `self`.
    pub fn wzwx(self) -> (r: F32x4)
        ensures
            r@ == seq![self@[3], self@[2], self@[3], self@[0]],
    {
        self.swizzle(59)
    }

    /// Lanes `x`, `w`, `w`, `x` of `self`.
    pub fn xwwx(self) -> (r: F32x4)
        ensures
            r@ == seq![self@[0], self@[3], self@[3], self@[0]],
    {
        self.swizzle(60)
    }

    /// Lanes `y`, `w`, `w`, `x` of `self`.
    pub fn ywwx(self) -> (r: F32x4)
        ensures
            r@ == seq![self@[1], self@[3], self@[3], self@[0]],
    {
        self.swizzle(61)
    }

    /// Lanes `z`, `w`, `w`, `x` of `self`.
    pub fn zwwx(self) -> (r: F32x4)
        ensures
            r@ == seq![self@[2], self@[3], self@[3], self@[0]],
    {
        self.swizzle(62)
    }

    /// Lanes `w`, `w`, `w`, `x` of `self`.
    pub fn wwwx(self) -> (r: F32x4)
        ensures
            r@ == seq![self@[3], self@[3], self@[3], self@[0]],
    {
        self.swizzle(63)
    }

    /// Lanes `x`, `x`, `x`, `y` of `self`.
    pub fn xxxy(self) -> (r: F32x4)
        ensures
            r@ == seq![self@[0], self@[0], self@[0], self@[1]],
    {
        self.swizzle(64)
    }

    /// Lanes `y`, `x`, `x`, `y` of `self`.
    pub fn yxxy(self) -> (r: F32x4)
        ensures
            r@ == seq![self@[1], self@[0], self@[0], self@[1]],
    {
        self.swizzle(65)
    }

    /// Lanes `z`, `x`, `x`, `y` of `self`.
    pub fn zxxy(self) -> (r: F32x4)
        ensures
            r@ == seq![self@[2], self@[0], self@[0], self@[1]],
    {
        self.swizzle(66)
    }

    /// Lanes `w`, `x`, `x`, `y` of `self`.
    pub fn wxxy(self) -> (r: F32x4)
        ensures
            r@ == seq![self@[3], self@[0], self@[0], self@[1]],
    {
        self.swizzle(67)
    }

    /// Lanes `x`, `y`, `x`, `y` of `self`.
    pub fn xyxy(self) -> (r: F32x4)
        ensures
            r@ == seq![self@[0], self@[1], self@[0], self@[1]],
    {
        self.swizzle(68)
    }

    /// Lanes `y`, `y`, `x`, `y` of `self`.
    pub fn yyxy(self) -> (r: F32x4)
        ensures
            r@ == seq![self@[1], self@[1], self@[0], self@[1]],
    {
        self.swizzle(69)
    }

    /// Lanes `z`, `y`, `x`, `y` of `self`.
    pub fn zyxy(self) -> (r: F32x4)
        ensures
            r@ == seq![self@[2], self@[1], self@[0], self@[1]],
    {
        self.swizzle(70)
    }

    /// Lanes `w`, `y`, `x`, `y` of `self`.
    pub fn wyxy(self) -> (r: F32x4)
        ensures
            r@ == seq![self@[3], self@[1], self@[0], self@[1]],
    {
        self.swizzle(71)
    }

    /// Lanes `x`, `z`, `x`, `y` of `self`.
    pub fn xzxy(self) -> (r: F32x4)
        ensures
            r@ == seq![self@[0], self@[2], self@[0], self@[1]],
    {
        self.swizzle(72)
    }

    /// Lanes `y`, `z`, `x`, `y` of `self`.
    pub fn yzxy(self) -> (r: F32x4)
        ensures
            r@ == seq![self@[1], self@[2], self@[0], self@[1]],
    {
        self.swizzle(73)
    }

    /// Lanes `z`, `z`, `x`, `y` of `self`.
    pub fn zzxy(self) -> (r: F32x4)
        ensures
            r@ == seq![self@[2], self@[2], self@[0], self@[1]],
    {
        self.swizzle(74)
    }

    /// Lanes `w`, `z`, `x`, `y` of `self`.
    pub fn wzxy(self) -> (r: F32x4)
        ensures
            r@ == seq![self@[3], self@[2], self@[0], self@[1]],
    {
        self.swizzle(75)
    }

    /// Lanes `x`, `w`, `x`, `y` of `self`.
    pub fn xwxy(self) -> (r: F32x4)
        ensures
            r@ == seq![self@[0], self@[3], self@[0], self@[1]],
    {
        self.swizzle(76)
    }

    /// Lanes `y`, `w`, `x`, `y` of `self`.
    pub fn ywxy(self) -> (r: F32x4)
        ensures
            r@ == seq![self@[1], self@[3], self@[0], self@[1]],
    {
        self.swizzle(77)
    }

    /// Lanes `z`, `w`, `x`, `y` of `self`.
    pub fn zwxy(self) -> (r: F32x4)
        ensures
            r@ == seq![self@[2], self@[3], self@[0], self@[1]],
    {
        self.swizzle(78)
    }

    /// Lanes `w`, `w`, `x`, `y` of `self`.
    pub fn wwxy(self) -> (r: F32x4)
        ensures
            r@ == seq![self@[3], self@[3], self@[0], self@[1]],
    {
        self.swizzle(79)
    }

    /// Lanes `x`, `x`, `y`, `y` of `self`.
    pub fn xxyy(self) -> (r: F32x4)
        ensures
            r@ == seq![self@[0], self@[0], self@[1], self@[1]],
    {
        self.swizzle(80)
    }

    /// Lanes `y`, `x`, `y`, `y` of `self`.
    pub fn yxyy(self) -> (r: F32x4)
        ensures
            r@ == seq![self@[1], self@[0], self@[1], self@[1]],
    {
        self.swizzle(81)
    }

    /// Lanes `z`, `x`, `y`, `y` of `self`.
    pub fn zxyy(self) -> (r: F32x4)
        ensures
            r@ == seq![self@[2], self@[0], self@[1], self@[1]],
    {
        self.swizzle(82)
    }

    /// Lanes `w`, `x`, `y`, `y` of `self`.
    pub fn wxyy(self) -> (r: F32x4)
        ensures
            r@ == seq![self@[3], self@[0], self@[1], self@[1]],
    {
        self.swizzle(83)
    }

    /// Lanes `x`, `y`, `y`, `y` of `self`.
    pub fn xyyy(self) -> (r: F32x4)
        ensures
            r@ == seq![self@[0], self@[1], self@[1], self@[1]],
    {
        self.swizzle(84)
    }

    /// Lanes `y`, `y`, `y`, `y` of `self`.
    pub fn yyyy(self) -> (r: F32x4)
        ensures
            r@ == seq![self@[1], self@[1], self@[1], self@[1]],
    {
        self.swizzle(85)
    }

    /// Lanes `z`, `y`, `y`, `y` of `self`.
    pub fn zyyy(self) -> (r: F32x4)
        ensures
            r@ == seq![self@[2], self@[1], self@[1], self@[1]],
    {
        self.swizzle(86)
    }

    /// Lanes `w`, `y`, `y`, `y` of `self`.
    pub fn wyyy(self) -> (r: F32x4)
        ensures
            r@ == seq![self@[3], self@[1], self@[1], self@[1]],
    {
        self.swizzle(87)
    }

    /// Lanes `x`, `z`, `y`, `y` of `self`.
    pub fn xzyy(self) -> (r: F32x4)
        ensures
            r@ == seq![self@[0], self@[2], self@[1], self@[1]],
    {
        self.swizzle(88)
    }

    /// Lanes `y`, `z`, `y`, `y` of `self`.
    pub fn yzyy(self) -> (r: F32x4)
        ensures
            r@ == seq![self@[1], self@[2], self@[1], self@[1]],
    {
        self.swizzle(89)
    }

    /// Lanes `z`, `z`, `y`, `y` of `self`.
    pub fn zzyy(self) -> (r: F32x4)
        ensures
            r@ == seq![self@[2], self@[2], self@[1], self@[1]],
    {
        self.swizzle(90)
    }

    /// Lanes `w`, `z`, `y`, `y` of `self`.
    pub fn wzyy(self) -> (r: F32x4)
        ensures
            r@ == seq![self@[3], self@[2], self@[1], self@[1]],
    {
        self.swizzle(91)
    }

    /// Lanes `x`, `w`, `y`, `y` of `self`.
    pub fn xwyy(self) -> (r: F32x4)
        ensures
            r@ == seq![self@[0], self@[3], self@[1], self@[1]],
    {
        self.swizzle(92)
    }

    /// Lanes `y`, `w`, `y`, `y` of `self`.
    pub fn ywyy(self) -> (r: F32x4)
        ensures
            r@ == seq![self@[1], self@[3], self@[1], self@[1]],
    {
        self.swizzle(93)
    }

    /// Lanes `z`, `w`, `y`, `y` of `self`.
    pub fn zwyy(self) -> (r: F32x4)
        ensures
            r@ == seq![self@[2], self@[3], self@[1], self@[1]],
    {
        self.swizzle(94)
    }

    /// Lanes `w`, `w`, `y`, `y` of `self`.
    pub fn wwyy(self) -> (r: F32x4)
        ensures
            r@ == seq![self@[3], self@[3], self@[1], self@[1]],
    {
        self.swizzle(95)
    }

    /// Lanes `x`, `x`, `z`, `y` of `self`.
    pub fn xxzy(self) -> (r: F32x4)
        ensures
            r@ == seq![self@[0], self@[0], self@[2], self@[1]],
    {
        self.swizzle(96)
    }

    /// Lanes `y`, `x`, `z`, `y` of `self`.
    pub fn yxzy(self) -> (r: F32x4)
        ensures
            r@ == seq![self@[1], self@[0], self@[2], self@[1]],
    {
        self.swizzle(97)
    }

    /// Lanes `z`, `x`, `z`, `y` of `self`.
    pub fn zxzy(self) -> (r: F32x4)
        ensures
            r@ == seq![self@[2], self@[0], self@[2], self@[1]],
    {
        self.swizzle(98)
    }

    /// Lanes `w`, `x`, `z`, `y` of `self`.
    pub fn wxzy(self) -> (r: F32x4)
        ensures
            r@ == seq![self@[3], self@[0], self@[2], self@[1]],
    {
        self.swizzle(99)
    }

    /// Lanes `x`, `y`, `z`, `y` of `self`.
    pub fn xyzy(self) -> (r: F32x4)
        ensures
            r@ == seq![self@[0], self@[1], self@[2], self@[1]],
    {
        self.swizzle(100)
    }

    /// Lanes `y`, `y`, `z`, `y` of `self`.
    pub fn yyzy(self) -> (r: F32x4)
        ensures
            r@ == seq![self@[1], self@[1], self@[2], self@[1]],
    {
        self.swizzle(101)
    }

    /// Lanes `z`, `y`, `z`, `y` of `self`.
    pub fn zyzy(self) -> (r: F32x4)
        ensures
            r@ == seq![self@[2], self@[1], self@[2], self@[1]],
    {
        self.swizzle(102)
    }

    /// Lanes `w`, `y`, `z`, `y` of `self`.
    pub fn wyzy(self) -> (r: F32x4)
        ensures
            r@ == seq![self@[3], self@[1], self@[2], self@[1]],
    {
        self.swizzle(103)
    }

    /// Lanes `x`, `z`, `z`, `y` of `self`.
    pub fn xzzy(self) -> (r: F32x4)
        ensures
            r@ == seq![self@[0], self@[2], self@[2], self@[1]],
    {
        self.swizzle(104)
    }

    /// Lanes `y`, `z`, `z`, `y` of `self`.
    pub fn yzzy(self) -> (r: F32x4)
        ensures
            r@ == seq![self@[1], self@[2], self@[2], self@[1]],
    {
        self.swizzle(105)
    }

    /// Lanes `z`, `z`, `z`, `y` of `self`.
    pub fn zzzy(self) -> (r: F32x4)
        ensures
            r@ == seq![self@[2], self@[2], self@[2], self@[1]],
    {
        self.swizzle(106)
    }

    /// Lanes `w`, `z`, `z`, `y` of `self`.
    pub fn wzzy(self) -> (r: F32x4)
        ensures
            r@ == seq![self@[3], self@[2], self@[2], self@[1]],
    {
        self.swizzle(107)
    }

    /// Lanes `x`, `w`, `z`, `y` of `self`.
    pub fn xwzy(self) -> (r: F32x4)
        ensures
            r@ == seq![self@[0], self@[3], self@[2], self@[1]],
    {
        self.swizzle(108)
    }

    /// Lanes `y`, `w`, `z`, `y` of `self`.
    pub fn ywzy(self) -> (r: F32x4)
        ensures
            r@ == seq![self@[1], self@[3], self@[2], self@[1]],
    {
        self.swizzle(109)
    }

    /// Lanes `z`, `w`, `z`, `y` of `self`.
    pub fn zwzy(self) -> (r: F32x4)
        ensures
            r@ == seq![self@[2], self@[3], self@[2], self@[1]],
    {
        self.swizzle(110)
    }

    /// Lanes `w`, `w`, `z`, `y` of `self`.
    pub fn wwzy(self) -> (r: F32x4)
        ensures
            r@ == seq![self@[3], self@[3], self@[2], self@[1]],
    {
        self.swizzle(111)
    }

    /// Lanes `x`, `x`, `w`, `y` of `self`.
    pub fn xxwy(self) -> (r: F32x4)
        ensures
            r@ == seq![self@[0], self@[0], self@[3], self@[1]],
    {
        self.swizzle(112)
    }

    /// Lanes `y`, `x`, `w`, `y` of `self`.
    pub fn yxwy(self) -> (r: F32x4)
        ensures
            r@ == seq![self@[1], self@[0], self@[3], self@[1]],
    {
        self.swizzle(113)
    }

    /// Lanes `z`, `x`, `w`, `y` of `self`.
    pub fn zxwy(self) -> (r: F32x4)
        ensures
            r@ == seq![self@[2], self@[0], self@[3], self@[1]],
    {
        self.swizzle(114)
    }

    /// Lanes `w`, `x`, `w`, `y` of `self`.
    pub fn wxwy(self) -> (r: F32x4)
        ensures
            r@ == seq![self@[3], self@[0], self@[3], self@[1]],
    {
        self.swizzle(115)
    }

    /// Lanes `x`, `y`, `w`, `y` of `self`.
    pub fn xywy(self) -> (r: F32x4)
        ensures
            r@ == seq![self@[0], self@[1], self@[3], self@[1]],
    {
        self.swizzle(116)
    }

    /// Lanes `y`, `y`, `w`, `y` of `self`.
    pub fn yywy(self) -> (r: F32x4)
        ensures
            r@ == seq![self@[1], self@[1], self@[3], self@[1]],
    {
        self.swizzle(117)
    }

    /// Lanes `z`, `y`, `w`, `y` of `self`.
    pub fn zywy(self) -> (r: F32x4)
        ensures
            r@ == seq![self@[2], self@[1], self@[3], self@[1]],
    {
        self.swizzle(118)
    }

    /// Lanes `w`, `y`, `w`, `y` of `self`.
    pub fn wywy(self) -> (r: F32x4)
        ensures
            r@ == seq![self@[3], self@[1], self@[3], self@[1]],
    {
        self.swizzle(119)
    }

    /// Lanes `x`, `z`, `w`, `y` of `self`.
    pub fn xzwy(self) -> (r: F32x4)
        ensures
            r@ == seq![self@[0], self@[2], self@[3], self@[1]],
    {
        self.swizzle(120)
    }

    /// Lanes `y`, `z`, `w`, `y` of `self`.
    pub fn yzwy(self) -> (r: F32x4)
        ensures
            r@ == seq![self@[1], self@[2], self@[3], self@[1]],
    {
        self.swizzle(121)
    }

    /// Lanes `z`, `z`, `w`, `y` of `self`.
    pub fn zzwy(self) -> (r: F32x4)
        ensures
            r@ == seq![self@[2], self@[2], self@[3], self@[1]],
    {
        self.swizzle(122)
    }

    /// Lanes `w`, `z`, `w`, `y` of `self`.
    pub fn wzwy(self) -> (r: F32x4)
        ensures
            r@ == seq![self@[3], self@[2], self@[3], self@[1]],
    {
        self.swizzle(123)
    }

    /// Lanes `x`, `w`, `w`, `y` of `self`.
    pub fn xwwy(self) -> (r: F32x4)
        ensures
            r@ == seq![self@[0], self@[3], self@[3], self@[1]],
    {
        self.swizzle(124)
    }

    /// Lanes `y`, `w`, `w`, `y` of `self`.
    pub fn ywwy(self) -> (r: F32x4)
        ensures
            r@ == seq![self@[1], self@[3], self@[3], self@[1]],
    {
        self.swizzle(125)
    }

    /// Lanes `z`, `w`, `w`, `y` of `self`.
    pub fn zwwy(self) -> (r: F32x4)
        ensures
            r@ == seq![self@[2], self@[3], self@[3], self@[1]],
    {
        self.swizzle(126)
    }

    /// Lanes `w`, `w`, `w`, `y` of `self`.
    pub fn wwwy(self) -> (r: F32x4)
        ensures
            r@ == seq![self@[3], self@[3], self@[3], self@[1]],
    {
        self.swizzle(127)
    }

    /// Lanes `x`, `x`, `x`, `z` of `self`.
    pub fn xxxz(self) -> (r: F32x4)
        ensures
            r@ == seq![self@[0], self@[0], self@[0], self@[2]],
    {
        self.swizzle(128)
    }

    /// Lanes `y`, `x`, `x`, `z` of `self`.
    pub fn yxxz(self) -> (r: F32x4)
        ensures
            r@ == seq![self@[1], self@[0], self@[0], self@[2]],
    {
        self.swizzle(129)
    }

    /// Lanes `z`, `x`, `x`, `z` of `self`.
    pub fn zxxz(self) -> (r: F32x4)
        ensures
            r@ == seq![self@[2], self@[0], self@[0], self@[2]],
    {
        self.swizzle(130)
    }

    /// Lanes `w`, `x`, `x`, `z` of `self`.
    pub fn wxxz(self) -> (r: F32x4)
        ensures
            r@ == seq![self@[3], self@[0], self@[0], self@[2]],
    {
        self.swizzle(131)
    }

    /// Lanes `x`, `y`, `x`, `z` of `self`.
    pub fn xyxz(self) -> (r: F32x4)
        ensures
            r@ == seq![self@[0], self@[1], self@[0], self@[2]],
    {
        self.swizzle(132)
    }

    /// Lanes `y`, `y`, `x`, `z` of `self`.
    pub fn yyxz(self) -> (r: F32x4)
        ensures
            r@ == seq![self@[1], self@[1], self@[0], self@[2]],
    {
        self.swizzle(133)
    }

    /// Lanes `z`, `y`, `x`, `z` of `self`.
    pub fn zyxz(self) -> (r: F32x4)
        ensures
            r@ == seq![self@[2], self@[1], self@[0], self@[2]],
    {
        self.swizzle(134)
    }

    /// Lanes `w`, `y`, `x`, `z` of `self`.
    pub fn wyxz(self) -> (r: F32x4)
        ensures
            r@ == seq![self@[3], self@[1], self@[0], self@[2]],
    {
        self.swizzle(135)
    }

    /// Lanes `x`, `z`, `x`, `z` of `self`.
    pub fn xzxz(self) -> (r: F32x4)
        ensures
            r@ == seq![self@[0], self@[2], self@[0], self@[2]],
    {
        self.swizzle(136)
    }

    /// Lanes `y`, `z`, `x`, `z` of `self`.
    pub fn yzxz(self) -> (r: F32x4)
        ensures
            r@ == seq![self@[1], self@[2], self@[0], self@[2]],
    {
        self.swizzle(137)
    }

    /// Lanes `z`, `z`, `x`, `z` of `self`.
    pub fn zzxz(self) -> (r: F32x4)
        ensures
            r@ == seq![self@[2], self@[2], self@[0], self@[2]],
    {
        self.swizzle(138)
    }

    /// Lanes `w`, `z`, `x`, `z` of `self`.
    pub fn wzxz(self) -> (r: F32x4)
        ensures
            r@ == seq![self@[3], self@[2], self@[0], self@[2]],
    {
        self.swizzle(139)
    }

    /// Lanes `x`, `w`, `x`, `z` of `self`.
    pub fn xwxz(self) -> (r: F32x4)
        ensures
            r@ == seq![self@[0], self@[3], self@[0], self@[2]],
    {
        self.swizzle(140)
    }

    /// Lanes `y`, `w`, `x`, `z` of `self`.
    pub fn ywxz(self) -> (r: F32x4)
        ensures
            r@ == seq![self@[1], self@[3], self@[0], self@[2]],
    {
        self.swizzle(141)
    }

    /// Lanes `z`, `w`, `x`, `z` of `self`.
    pub fn zwxz(self) -> (r: F32x4)
        ensures
            r@ == seq![self@[2], self@[3], self@[0], self@[2]],
    {
        self.swizzle(142)
    }

    /// Lanes `w`, `w`, `x`, `z` of `self`.
    pub fn wwxz(self) -> (r: F32x4)
        ensures
            r@ == seq![self@[3], self@[3], self@[0], self@[2]],
    {
        self.swizzle(143)
    }

    /// Lanes `x`, `x`, `y`, `z` of `self`.
    pub fn xxyz(self) -> (r: F32x4)
        ensures
            r@ == seq![self@[0], self@[0], self@[1], self@[2]],
    {
        self.swizzle(144)
    }

    /// Lanes `y`, `x`, `y`, `z` of `self`.
    pub fn yxyz(self) -> (r: F32x4)
        ensures
            r@ == seq![self@[1], self@[0], self@[1], self@[2]],
    {
        self.swizzle(145)
    }

    /// Lanes `z`, `x`, `y`, `z` of `self`.
    pub fn zxyz(self) -> (r: F32x4)
        ensures
            r@ == seq![self@[2], self@[0], self@[1], self@[2]],
    {
        self.swizzle(146)
    }

    /// Lanes `w`, `x`, `y`, `z` of `self`.
    pub fn wxyz(self) -> (r: F32x4)
        ensures
            r@ == seq![self@[3], self@[0], self@[1], self@[2]],
    {
        self.swizzle(147)
    }

    /// Lanes `x`, `y`, `y`, `z` of `self`.
    pub fn xyyz(self) -> (r: F32x4)
        ensures
            r@ == seq![self@[0], self@[1], self@[1], self@[2]],
    {
        self.swizzle(148)
    }

    /// Lanes `y`, `y`, `y`, `z` of `self`.
    pub fn yyyz(self) -> (r: F32x4)
        ensures
            r@ == seq![self@[1], self@[1], self@[1], self@[2]],
    {
        self.swizzle(149)
    }

    /// Lanes `z`, `y`, `y`, `z` of `self`.
    pub fn zyyz(self) -> (r: F32x4)
        ensures
            r@ == seq![self@[2], self@[1], self@[1], self@[2]],
    {
        self.swizzle(150)
    }

    /// Lanes `w`, `y`, `y`, `z` of `self`.
    pub fn wyyz(self) -> (r: F32x4)
        ensures
            r@ == seq![self@[3], self@[1], self@[1], self@[2]],
    {
        self.swizzle(151)
    }

    /// Lanes `x`, `z`, `y`, `z` of `self`.
    pub fn xzyz(self) -> (r: F32x4)
        ensures
            r@ == seq![self@[0], self@[2], self@[1], self@[2]],
    {
        self.swizzle(152)
    }

    /// Lanes `y`, `z`, `y`, `z` of `self`.
    pub fn yzyz(self) -> (r: F32x4)
        ensures
            r@ == seq![self@[1], self@[2], self@[1], self@[2]],
    {
        self.swizzle(153)
    }

    /// Lanes `z`, `z`, `y`, `z` of `self`.
    pub fn zzyz(self) -> (r: F32x4)
        ensures
            r@ == seq![self@[2], self@[2], self@[1], self@[2]],
    {
        self.swizzle(154)
    }

    /// Lanes `w`, `z`, `y`, `z` of `self`.
    pub fn wzyz(self) -> (r: F32x4)
        ensures
            r@ == seq![self@[3], self@[2], self@[1], self@[2]],
    {
        self.swizzle(155)
    }

    /// Lanes `x`, `w`, `y`, `z` of `self`.
    pub fn xwyz(self) -> (r: F32x4)
        ensures
            r@ == seq![self@[0], self@[3], self@[1], self@[2]],
    {
        self.swizzle(156)
    }

    /// Lanes `y`, `w`, `y`, `z` of `self`.
    pub fn ywyz(self) -> (r: F32x4)
        ensures
            r@ == seq![self@[1], self@[3], self@[1], self@[2]],
    {
        self.swizzle(157)
    }

    /// Lanes `z`, `w`, `y`, `z` of `self`.
    pub fn zwyz(self) -> (r: F32x4)
        ensures
            r@ == seq![self@[2], self@[3], self@[1], self@[2]],
    {
        self.swizzle(158)
    }

    /// Lanes `w`, `w`, `y`, `z` of `self`.
    pub fn wwyz(self) -> (r: F32x4)
        ensures
            r@ == seq![self@[3], self@[3], self@[1], self@[2]],
    {
        self.swizzle(159)
    }

    /// Lanes `x`, `x`, `z`, `z` of `self`.
    pub fn xxzz(self) -> (r: F32x4)
        ensures
            r@ == seq![self@[0], self@[0], self@[2], self@[2]],
    {
        self.swizzle(160)
    }

    /// Lanes `y`, `x`, `z`, `z` of `self`.
    pub fn yxzz(self) -> (r: F32x4)
        ensures
            r@ == seq![self@[1], self@[0], self@[2], self@[2]],
    {
        self.swizzle(161)
    }

    /// Lanes `z`, `x`, `z`, `z` of `self`.
    pub fn zxzz(self) -> (r: F32x4)
        ensures
            r@ == seq![self@[2], self@[0], self@[2], self@[2]],
    {
        self.swizzle(162)
    }

    /// Lanes `w`, `x`, `z`, `z` of `self`.
    pub fn wxzz(self) -> (r: F32x4)
        ensures
            r@ == seq![self@[3], self@[0], self@[2], self@[2]],
    {
        self.swizzle(163)
    }

    /// Lanes `x`, `y`, `z`, `z` of `self`.
    pub fn xyzz(self) -> (r: F32x4)
        ensures
            r@ == seq![self@[0], self@[1], self@[2], self@[2]],
    {
        self.swizzle(164)
    }

    /// Lanes `y`, `y`, `z`, `z` of `self`.
    pub fn yyzz(self) -> (r: F32x4)
        ensures
            r@ == seq![self@[1], self@[1], self@[2], self@[2]],
    {
        self.swizzle(165)
    }

    /// Lanes `z`, `y`, `z`, `z` of `self`.
    pub fn zyzz(self) -> (r: F32x4)
        ensures
            r@ == seq![self@[2], self@[1], self@[2], self@[2]],
    {
        self.swizzle(166)
    }

    /// Lanes `w`, `y`, `z`, `z` of `self`.
    pub fn wyzz(self) -> (r: F32x4)
        ensures
            r@ == seq![self@[3], self@[1], self@[2], self@[2]],
    {
        self.swizzle(167)
    }

    /// Lanes `x`, `z`, `z`, `z` of `self`.
    pub fn xzzz(self) -> (r: F32x4)
        ensures
            r@ == seq![self@[0], self@[2], self@[2], self@[2]],
    {
        self.swizzle(168)
    }

    /// Lanes `y`, `z`, `z`, `z` of `self`.
    pub fn yzzz(self) -> (r: F32x4)
        ensures
            r@ == seq![self@[1], self@[2], self@[2], self@[2]],
    {
        self.swizzle(169)
    }

    /// Lanes `z`, `z`, `z`, `z` of `self`.
    pub fn zzzz(self) -> (r: F32x4)
        ensures
            r@ == seq![self@[2], self@[2], self@[2], self@[2]],
    {
        self.swizzle(170)
    }

    /// Lanes `w`, `z`, `z`, `z` of `self`.
    pub fn wzzz(self) -> (r: F32x4)
        ensures
            r@ == seq![self@[3], self@[2], self@[2], self@[2]],
    {
        self.swizzle(171)
    }

    /// Lanes `x`, `w`, `z`, `z` of `self`.
    pub fn xwzz(self) -> (r: F32x4)
        ensures
            r@ == seq![self@[0], self@[3], self@[2], self@[2]],
    {
        self.swizzle(172)
    }

    /// Lanes `y`, `w`, `z`, `z` of `self`.
    pub fn ywzz(self) -> (r: F32x4)
        ensures
            r@ == seq![self@[1], self@[3], self@[2], self@[2]],
    {
        self.swizzle(173)
    }

    /// Lanes `z`, `w`, `z`, `z` of `self`.
    pub fn zwzz(self) -> (r: F32x4)
        ensures
            r@ == seq![self@[2], self@[3], self@[2], self@[2]],
    {
        self.swizzle(174)
    }

    /// Lanes `w`, `w`, `z`, `z` of `self`.
    pub fn wwzz(self) -> (r: F32x4)
        ensures
            r@ == seq![self@[3], self@[3], self@[2], self@[2]],
    {
        self.swizzle(175)
    }

    /// Lanes `x`, `x`, `w`, `z` of `self`.
    pub fn xxwz(self) -> (r: F32x4)
        ensures
            r@ == seq![self@[0], self@[0], self@[3], self@[2]],
    {
        self.swizzle(176)
    }

    /// Lanes `y`, `x`, `w`, `z` of `self`.
    pub fn yxwz(self) -> (r: F32x4)
        ensures
            r@ == seq![self@[1], self@[0], self@[3], self@[2]],
    {
        self.swizzle(177)
    }

    /// Lanes `z`, `x`, `w`, `z` of `self`.
    pub fn zxwz(self) -> (r: F32x4)
        ensures
            r@ == seq![self@[2], self@[0], self@[3], self@[2]],
    {
        self.swizzle(178)
    }

    /// Lanes `w`, `x`, `w`, `z` of `self`.
    pub fn wxwz(self) -> (r: F32x4)
        ensures
            r@ == seq![self@[3], self@[0], self@[3], self@[2]],
    {
        self.swizzle(179)
    }

    /// Lanes `x`, `y`, `w`, `z` of `self`.
    pub fn xywz(self) -> (r: F32x4)
        ensures
            r@ == seq![self@[0], self@[1], self@[3], self@[2]],
    {
        self.swizzle(180)
    }

    /// Lanes `y`, `y`, `w`, `z` of `self`.
    pub fn yywz(self) -> (r: F32x4)
        ensures
            r@ == seq![self@[1], self@[1], self@[3], self@[2]],
    {
        self.swizzle(181)
    }

    /// Lanes `z`, `y`, `w`, `z` of `self`.
    pub fn zywz(self) -> (r: F32x4)
        ensures
            r@ == seq![self@[2], self@[1], self@[3], self@[2]],
    {
        self.swizzle(182)
    }

    /// Lanes `w`, `y`, `w`, `z` of `self`.
    pub fn wywz(self) -> (r: F32x4)
        ensures
            r@ == seq![self@[3], self@[1], self@[3], self@[2]],
    {
        self.swizzle(183)
    }

    /// Lanes `x`, `z`, `w`, `z` of `self`.
    pub fn xzwz(self) -> (r: F32x4)
        ensures
            r@ == seq![self@[0], self@[2], self@[3], self@[2]],
    {
        self.swizzle(184)
    }

    /// Lanes `y`, `z`, `w`, `z` of `self`.
    pub fn yzwz(self) -> (r: F32x4)
        ensures
            r@ == seq![self@[1], self@[2], self@[3], self@[2]],
    {
        self.swizzle(185)
    }

    /// Lanes `z`, `z`, `w`, `z` of `self`.
    pub fn zzwz(self) -> (r: F32x4)
        ensures
            r@ == seq![self@[2], self@[2], self@[3], self@[2]],
    {
        self.swizzle(186)
    }

    /// Lanes `w`, `z`, `w`, `z` of `self`.
    pub fn wzwz(self) -> (r: F32x4)
        ensures
            r@ == seq![self@[3], self@[2], self@[3], self@[2]],
    {
        self.swizzle(187)
    }

    /// Lanes `x`, `w`, `w`, `z` of `self`.
    pub fn xwwz(self) -> (r: F32x4)
        ensures
            r@ == seq![self@[0], self@[3], self@[3], self@[2]],
    {
        self.swizzle(188)
    }

    /// Lanes `y`, `w`, `w`, `z` of `self`.
    pub fn ywwz(self) -> (r: F32x4)
        ensures
            r@ == seq![self@[1], self@[3], self@[3], self@[2]],
    {
        self.swizzle(189)
    }

    /// Lanes `z`, `w`, `w`, `z` of `self`.
    pub fn zwwz(self) -> (r: F32x4)
        ensures
            r@ == seq![self@[2], self@[3], self@[3], self@[2]],
    {
        self.swizzle(190)
    }

    /// Lanes `w`, `w`, `w`, `z` of `self`.
    pub fn wwwz(self) -> (r: F32x4)
        ensures
            r@ == seq![self@[3], self@[3], self@[3], self@[2]],
    {
        self.swizzle(191)
    }

    /// Lanes `x`, `x`, `x`, `w` of `self`.
    pub fn xxxw(self) -> (r: F32x4)
        ensures
            r@ == seq![self@[0], self@[0], self@[0], self@[3]],
    {
        self.swizzle(192)
    }

    /// Lanes `y`, `x`, `x`, `w` of `self`.
    pub fn yxxw(self) -> (r: F32x4)
        ensures
            r@ == seq![self@[1], self@[0], self@[0], self@[3]],
    {
        self.swizzle(193)
    }

    /// Lanes `z`, `x`, `x`, `w` of `self`.
    pub fn zxxw(self) -> (r: F32x4)
        ensures
            r@ == seq![self@[2], self@[0], self@[0], self@[3]],
    {
        self.swizzle(194)
    }

    /// Lanes `w`, `x`, `x`, `w` of `self`.
    pub fn wxxw(self) -> (r: F32x4)
        ensures
            r@ == seq![self@[3], self@[0], self@[0], self@[3]],
    {
        self.swizzle(195)
    }

    /// Lanes `x`, `y`, `x`, `w` of `self`.
    pub fn xyxw(self) -> (r: F32x4)
        ensures
            r@ == seq![self@[0], self@[1], self@[0], self@[3]],
    {
        self.swizzle(196)
    }

    /// Lanes `y`, `y`, `x`, `w` of `self`.
    pub fn yyxw(self) -> (r: F32x4)
        ensures
            r@ == seq![self@[1], self@[1], self@[0], self@[3]],
    {
        self.swizzle(197)
    }

    /// Lanes `z`, `y`, `x`, `w` of `self`.
    pub fn zyxw(self) -> (r: F32x4)
        ensures
            r@ == seq![self@[2], self@[1], self@[0], self@[3]],
    {
        self.swizzle(198)
    }

    /// Lanes `w`, `y`, `x`, `w` of `self`.
    pub fn wyxw(self) -> (r: F32x4)
        ensures
            r@ == seq![self@[3], self@[1], self@[0], self@[3]],
    {
        self.swizzle(199)
    }

    /// Lanes `x`, `z`, `x`, `w` of `self`.
    pub fn xzxw(self) -> (r: F32x4)
        ensures
            r@ == seq![self@[0], self@[2], self@[0], self@[3]],
    {
        self.swizzle(200)
    }

    /// Lanes `y`, `z`, `x`, `w` of `self`.
    pub fn yzxw(self) -> (r: F32x4)
        ensures
            r@ == seq![self@[1], self@[2], self@[0], self@[3]],
    {
        self.swizzle(201)
    }

    /// Lanes `z`, `z`, `x`, `w` of `self`.
    pub fn zzxw(self) -> (r: F32x4)
        ensures
            r@ == seq![self@[2], self@[2], self@[0], self@[3]],
    {
        self.swizzle(202)
    }

    /// Lanes `w`, `z`, `x`, `w` of `self`.
    pub fn wzxw(self) -> (r: F32x4)
        ensures
            r@ == seq![self@[3], self@[2], self@[0], self@[3]],
    {
        self.swizzle(203)
    }

    /// Lanes `x`, `w`, `x`, `w` of `self`.
    pub fn xwxw(self) -> (r: F32x4)
        ensures
            r@ == seq![self@[0], self@[3], self@[0], self@[3]],
    {
        self.swizzle(204)
    }

    /// Lanes `y`, `w`, `x`, `w` of `self`.
    pub fn ywxw(self) -> (r: F32x4)
        ensures
            r@ == seq![self@[1], self@[3], self@[0], self@[3]],
    {
        self.swizzle(205)
    }

    /// Lanes `z`, `w`, `x`, `w` of `self`.
    pub fn zwxw(self) -> (r: F32x4)
        ensures
            r@ == seq![self@[2], self@[3], self@[0], self@[3]],
    {
        self.swizzle(206)
    }

    /// Lanes `w`, `w`, `x`, `w` of `self`.
    pub fn wwxw(self) -> (r: F32x4)
        ensures
            r@ == seq![self@[3], self@[3], self@[0], self@[3]],
    {
        self.swizzle(207)
    }

    /// Lanes `x`, `x`, `y`, `w` of `self`.
    pub fn xxyw(self) -> (r: F32x4)
        ensures
            r@ == seq![self@[0], self@[0], self@[1], self@[3]],
    {
        self.swizzle(208)
    }

    /// Lanes `y`, `x`, `y`, `w` of `self`.
    pub fn yxyw(self) -> (r: F32x4)
        ensures
            r@ == seq![self@[1], self@[0], self@[1], self@[3]],
    {
        self.swizzle(209)
    }

    /// Lanes `z`, `x`, `y`, `w` of `self`.
    pub fn zxyw(self) -> (r: F32x4)
        ensures
            r@ == seq![self@[2], self@[0], self@[1], self@[3]],
    {
        self.swizzle(210)
    }

    /// Lanes `w`, `x`, `y`, `w` of `self`.
    pub fn wxyw(self) -> (r: F32x4)
        ensures
            r@ == seq![self@[3], self@[0], self@[1], self@[3]],
    {
        self.swizzle(211)
    }

    /// Lanes `x`, `y`, `y`, `w` of `self`.
    pub fn xyyw(self) -> (r: F32x4)
        ensures
            r@ == seq![self@[0], self@[1], self@[1], self@[3]],
    {
        self.swizzle(212)
    }

    /// Lanes `y`, `y`, `y`, `w` of `self`.
    pub fn yyyw(self) -> (r: F32x4)
        ensures
            r@ == seq![self@[1], self@[1], self@[1], self@[3]],
    {
        self.swizzle(213)
    }

    /// Lanes `z`, `y`, `y`, `w` of `self`.
    pub fn zyyw(self) -> (r: F32x4)
        ensures
            r@ == seq![self@[2], self@[1], self@[1], self@[3]],
    {
        self.swizzle(214)
    }

    /// Lanes `w`, `y`, `y`, `w` of `self`.
    pub fn wyyw(self) -> (r: F32x4)
        ensures
            r@ == seq![self@[3], self@[1], self@[1], self@[3]],
    {
        self.swizzle(215)
    }

    /// Lanes `x`, `z`, `y`, `w` of `self`.
    pub fn xzyw(self) -> (r: F32x4)
        ensures
            r@ == seq![self@[0], self@[2], self@[1], self@[3]],
    {
        self.swizzle(216)
    }

    /// Lanes `y`, `z`, `y`, `w` of `self`.
    pub fn yzyw(self) -> (r: F32x4)
        ensures
            r@ == seq![self@[1], self@[2], self@[1], self@[3]],
    {
        self.swizzle(217)
    }

    /// Lanes `z`, `z`, `y`, `w` of `self`.
    pub fn zzyw(self) -> (r: F32x4)
        ensures
            r@ == seq![self@[2], self@[2], self@[1], self@[3]],
    {
        self.swizzle(218)
    }

    /// Lanes `w`, `z`, `y`, `w` of `self`.
    pub fn wzyw(self) -> (r: F32x4)
        ensures
            r@ == seq![self@[3], self@[2], self@[1], self@[3]],
    {
        self.swizzle(219)
    }

    /// Lanes `x`, `w`, `y`, `w` of `self`.
    pub fn xwyw(self) -> (r: F32x4)
        ensures
            r@ == seq![self@[0], self@[3], self@[1], self@[3]],
    {
        self.swizzle(220)
    }

    /// Lanes `y`, `w`, `y`, `w` of `self`.
    pub fn ywyw(self) -> (r: F32x4)
        ensures
            r@ == seq![self@[1], self@[3], self@[1], self@[3]],
    {
        self.swizzle(221)
    }

    /// Lanes `z`, `w`, `y`, `w` of `self`.
    pub fn zwyw(self) -> (r: F32x4)
        ensures
            r@ == seq![self@[2], self@[3], self@[1], self@[3]],
    {
        self.swizzle(222)
    }

    /// Lanes `w`, `w`, `y`, `w` of `self`.
    pub fn wwyw(self) -> (r: F32x4)
        ensures
            r@ == seq![self@[3], self@[3], self@[1], self@[3]],
    {
        self.swizzle(223)
    }

    /// Lanes `x`, `x`, `z`, `w` of `self`.
    pub fn xxzw(self) -> (r: F32x4)
        ensures
            r@ == seq![self@[0], self@[0], self@[2], self@[3]],
    {
        self.swizzle(224)
    }

    /// Lanes `y`, `x`, `z`, `w` of `self`.
    pub fn yxzw(self) -> (r: F32x4)
        ensures
            r@ == seq![self@[1], self@[0], self@[2], self@[3]],
    {
        self.swizzle(225)
    }

    /// Lanes `z`, `x`, `z`, `w` of `self`.
    pub fn zxzw(self) -> (r: F32x4)
        ensures
            r@ == seq![self@[2], self@[0], self@[2], self@[3]],
    {
        self.swizzle(226)
    }

    /// Lanes `w`, `x`, `z`, `w` of `self`.
    pub fn wxzw(self) -> (r: F32x4)
        ensures
            r@ == seq![self@[3], self@[0], self@[2], self@[3]],
    {
        self.swizzle(227)
    }

    /// Lanes `x`, `y`, `z`, `w` of `self`.
    pub fn xyzw(self) -> (r: F32x4)
        ensures
            r@ == seq![self@[0], self@[1], self@[2], self@[3]],
    {
        self.swizzle(228)
    }

    /// Lanes `y`, `y`, `z`, `w` of `self`.
    pub fn yyzw(self) -> (r: F32x4)
        ensures
            r@ == seq![self@[1], self@[1], self@[2], self@[3]],
    {
        self.swizzle(229)
    }

    /// Lanes `z`, `y`, `z`, `w` of `self`.
    pub fn zyzw(self) -> (r: F32x4)
        ensures
            r@ == seq![self@[2], self@[1], self@[2], self@[3]],
    {
        self.swizzle(230)
    }

    /// Lanes `w`, `y`, `z`, `w` of `self`.
    pub fn wyzw(self) -> (r: F32x4)
        ensures
            r@ == seq![self@[3], self@[1], self@[2], self@[3]],
    {
        self.swizzle(231)
    }

    /// Lanes `x`, `z`, `z`, `w` of `self`.
    pub fn xzzw(self) -> (r: F32x4)
        ensures
            r@ == seq![self@[0], self@[2], self@[2], self@[3]],
    {
        self.swizzle(232)
    }

    /// Lanes `y`, `z`, `z`, `w` of `self`.
    pub fn yzzw(self) -> (r: F32x4)
        ensures
            r@ == seq![self@[1], self@[2], self@[2], self@[3]],
    {
        self.swizzle(233)
    }

    /// Lanes `z`, `z`, `z`, `w` of `self`.
    pub fn zzzw(self) -> (r: F32x4)
        ensures
            r@ == seq![self@[2], self@[2], self@[2], self@[3]],
    {
        self.swizzle(234)
    }

    /// Lanes `w`, `z`, `z`, `w` of `self`.
    pub fn wzzw(self) -> (r: F32x4)
        ensures
            r@ == seq![self@[3], self@[2], self@[2], self@[3]],
    {
        self.swizzle(235)
    }

    /// Lanes `x`, `w`, `z`, `w` of `self`.
    pub fn xwzw(self) -> (r: F32x4)
        ensures
            r@ == seq![self@[0], self@[3], self@[2], self@[3]],
    {
        self.swizzle(236)
    }

    /// Lanes `y`, `w`, `z`, `w` of `self`.
    pub fn ywzw(self) -> (r: F32x4)
        ensures
            r@ == seq![self@[1], self@[3], self@[2], self@[3]],
    {
        self.swizzle(237)
    }

    /// Lanes `z`, `w`, `z`, `w` of `self`.
    pub fn zwzw(self) -> (r: F32x4)
        ensures
            r@ == seq![self@[2], self@[3], self@[2], self@[3]],
    {
        self.swizzle(238)
    }

    /// Lanes `w`, `w`, `z`, `w` of `self`.
    pub fn wwzw(self) -> (r: F32x4)
        ensures
            r@ == seq![self@[3], self@[3], self@[2], self@[3]],
    {
        self.swizzle(239)
    }

    /// Lanes `x`, `x`, `w`, `w` of `self`.
    pub fn xxww(self) -> (r: F32x4)
        ensures
            r@ == seq![self@[0], self@[0], self@[3], self@[3]],
    {
        self.swizzle(240)
    }

    /// Lanes `y`, `x`, `w`, `w` of `self`.
    pub fn yxww(self) -> (r: F32x4)
        ensures
            r@ == seq![self@[1], self@[0], self@[3], self@[3]],
    {
        self.swizzle(241)
    }

    /// Lanes `z`, `x`, `w`, `w` of `self`.
    pub fn zxww(self) -> (r: F32x4)
        ensures
            r@ == seq![self@[2], self@[0], self@[3], self@[3]],
    {
        self.swizzle(242)
    }

    /// Lanes `w`, `x`, `w`, `w` of `self`.
    pub fn wxww(self) -> (r: F32x4)
        ensures
            r@ == seq![self@[3], self@[0], self@[3], self@[3]],
    {
        self.swizzle(243)
    }

    /// Lanes `x`, `y`, `w`, `w` of `self`.
    pub fn xyww(self) -> (r: F32x4)
        ensures
            r@ == seq![self@[0], self@[1], self@[3], self@[3]],
    {
        self.swizzle(244)
    }

    /// Lanes `y`, `y`, `w`, `w` of `self`.
    pub fn yyww(self) -> (r: F32x4)
        ensures
            r@ == seq![self@[1], self@[1], self@[3], self@[3]],
    {
        self.swizzle(245)
    }

    /// Lanes `z`, `y`, `w`, `w` of `self`.
    pub fn zyww(self) -> (r: F32x4)
        ensures
            r@ == seq![self@[2], self@[1], self@[3], self@[3]],
    {
        self.swizzle(246)
    }

    /// Lanes `w`, `y`, `w`, `w` of `self`.
    pub fn wyww(self) -> (r: F32x4)
        ensures
            r@ == seq![self@[3], self@[1], self@[3], self@[3]],
    {
        self.swizzle(247)
    }

    /// Lanes `x`, `z`, `w`, `w` of `self`.
    pub fn xzww(self) -> (r: F32x4)
        ensures
            r@ == seq![self@[0], self@[2], self@[3], self@[3]],
    {
        self.swizzle(248)
    }

    /// Lanes `y`, `z`, `w`, `w` of `self`.
    pub fn yzww(self) -> (r: F32x4)
        ensures
            r@ == seq![self@[1], self@[2], self@[3], self@[3]],
    {
        self.swizzle(249)
    }

    /// Lanes `z`, `z`, `w`, `w` of `self`.
    pub fn zzww(self) -> (r: F32x4)
        ensures
            r@ == seq![self@[2], self@[2], self@[3], self@[3]],
    {
        self.swizzle(250)
    }

    /// Lanes `w`, `z`, `w`, `w` of `self`.
    pub fn wzww(self) -> (r: F32x4)
        ensures
            r@ == seq![self@[3], self@[2], self@[3], self@[3]],
    {
        self.swizzle(251)
    }

    /// Lanes `x`, `w`, `w`, `w` of `self`.
    pub fn xwww(self) -> (r: F32x4)
        ensures
            r@ == seq![self@[0], self@[3], self@[3], self@[3]],
    {
        self.swizzle(252)
    }

    /// Lanes `y`, `w`, `w`, `w` of `self`.
    pub fn ywww(self) -> (r: F32x4)
        ensures
            r@ == seq![self@[1], self@[3], self@[3], self@[3]],
    {
        self.swizzle(253)
    }

    /// Lanes `z`, `w`, `w`, `w` of `self`.
    pub fn zwww(self) -> (r: F32x4)
        ensures
            r@ == seq![self@[2], self@[3], self@[3], self@[3]],
    {
        self.swizzle(254)
    }

    /// Lanes `w`, `w`, `w`, `w` of `self`.
    pub fn wwww(self) -> (r: F32x4)
        ensures
            r@ == seq![self@[3], self@[3], self@[3], self@[3]],
    {
        self.swizzle(255)
    }
}

} // verus!
