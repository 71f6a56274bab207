//! The Lowercase character property.

use vstd::prelude::*;

use crate::compact::{covered, ordered_flag_rows};
use crate::lookup::lookup_flag;
use crate::property::CharProperty;

verus! {

/// The ranges of characters with the Lowercase property (Unicode 16.0.0), ascending.
pub open spec fn lowercase_rows() -> Seq<(u32, u32)> {
    seq![
        (0x61, 0x7A), (0xAA, 0xAA), (0xB5, 0xB5), (0xBA, 0xBA), (0xDF, 0xF6), (0xF8, 0xFF),
        (0x101, 0x101), (0x103, 0x103), (0x105, 0x105), (0x107, 0x107), (0x109, 0x109),
        (0x10B, 0x10B), (0x10D, 0x10D), (0x10F, 0x10F), (0x111, 0x111), (0x113, 0x113),
        (0x115, 0x115), (0x117, 0x117), (0x119, 0x119), (0x11B, 0x11B), (0x11D, 0x11D),
        (0x11F, 0x11F), (0x121, 0x121), (0x123, 0x123), (0x125, 0x125), (0x127, 0x127),
        (0x129, 0x129), (0x12B, 0x12B), (0x12D, 0x12D), (0x12F, 0x12F), (0x131, 0x131),
        (0x133, 0x133), (0x135, 0x135), (0x137, 0x138), (0x13A, 0x13A), (0x13C, 0x13C),
        (0x13E, 0x13E), (0x140, 0x140), (0x142, 0x142), (0x144, 0x144), (0x146, 0x146),
        (0x148, 0x149), (0x14B, 0x14B), (0x14D, 0x14D), (0x14F, 0x14F), (0x151, 0x151),
        (0x153, 0x153), (0x155, 0x155), (0x157, 0x157), (0x159, 0x159), (0x15B, 0x15B),
        (0x15D, 0x15D), (0x15F, 0x15F), (0x161, 0x161), (0x163, 0x163), (0x165, 0x165),
        (0x167, 0x167), (0x169, 0x169), (0x16B, 0x16B), (0x16D, 0x16D), (0x16F, 0x16F),
        (0x171, 0x171), (0x173, 0x173), (0x175, 0x175), (0x177, 0x177), (0x17A, 0x17A),
        (0x17C, 0x17C), (0x17E, 0x180), (0x183, 0x183), (0x185, 0x185), (0x188, 0x188),
        (0x18C, 0x18D), (0x192, 0x192), (0x195, 0x195), (0x199, 0x19B), (0x19E, 0x19E),
        (0x1A1, 0x1A1), (0x1A3, 0x1A3), (0x1A5, 0x1A5), (0x1A8, 0x1A8), (0x1AA, 0x1AB),
        (0x1AD, 0x1AD), (0x1B0, 0x1B0), (0x1B4, 0x1B4), (0x1B6, 0x1B6), (0x1B9, 0x1BA),
        (0x1BD, 0x1BF), (0x1C6, 0x1C6), (0x1C9, 0x1C9), (0x1CC, 0x1CC), (0x1CE, 0x1CE),
        (0x1D0, 0x1D0), (0x1D2, 0x1D2), (0x1D4, 0x1D4), (0x1D6, 0x1D6), (0x1D8, 0x1D8),
        (0x1DA, 0x1DA), (0x1DC, 0x1DD), (0x1DF, 0x1DF), (0x1E1, 0x1E1), (0x1E3, 0x1E3),
        (0x1E5, 0x1E5), (0x1E7, 0x1E7), (0x1E9, 0x1E9), (0x1EB, 0x1EB), (0x1ED, 0x1ED),
        (0x1EF, 0x1F0), (0x1F3, 0x1F3), (0x1F5, 0x1F5), (0x1F9, 0x1F9), (0x1FB, 0x1FB),
        (0x1FD, 0x1FD), (0x1FF, 0x1FF), (0x201, 0x201), (0x203, 0x203), (0x205, 0x205),
        (0x207, 0x207), (0x209, 0x209), (0x20B, 0x20B), (0x20D, 0x20D), (0x20F, 0x20F),
        (0x211, 0x211), (0x213, 0x213), (0x215, 0x215), (0x217, 0x217), (0x219, 0x219),
        (0x21B, 0x21B), (0x21D, 0x21D), (0x21F, 0x21F), (0x221, 0x221), (0x223, 0x223),
        (0x225, 0x225), (0x227, 0x227), (0x229, 0x229), (0x22B, 0x22B), (0x22D, 0x22D),
        (0x22F, 0x22F), (0x231, 0x231), (0x233, 0x239), (0x23C, 0x23C), (0x23F, 0x240),
        (0x242, 0x242), (0x247, 0x247), (0x249, 0x249), (0x24B, 0x24B), (0x24D, 0x24D),
        (0x24F, 0x293), (0x295, 0x2B8), (0x2C0, 0x2C1), (0x2E0, 0x2E4), (0x345, 0x345),
        (0x371, 0x371), (0x373, 0x373), (0x377, 0x377), (0x37A, 0x37D), (0x390, 0x390),
        (0x3AC, 0x3CE), (0x3D0, 0x3D1), (0x3D5, 0x3D7), (0x3D9, 0x3D9), (0x3DB, 0x3DB),
        (0x3DD, 0x3DD), (0x3DF, 0x3DF), (0x3E1, 0x3E1), (0x3E3, 0x3E3), (0x3E5, 0x3E5),
        (0x3E7, 0x3E7), (0x3E9, 0x3E9), (0x3EB, 0x3EB), (0x3ED, 0x3ED), (0x3EF, 0x3F3),
        (0x3F5, 0x3F5), (0x3F8, 0x3F8), (0x3FB, 0x3FC), (0x430, 0x45F), (0x461, 0x461),
        (0x463, 0x463), (0x465, 0x465), (0x467, 0x467), (0x469, 0x469), (0x46B, 0x46B),
        (0x46D, 0x46D), (0x46F, 0x46F), (0x471, 0x471), (0x473, 0x473), (0x475, 0x475),
        (0x477, 0x477), (0x479, 0x479), (0x47B, 0x47B), (0x47D, 0x47D), (0x47F, 0x47F),
        (0x481, 0x481), (0x48B, 0x48B), (0x48D, 0x48D), (0x48F, 0x48F), (0x491, 0x491),
        (0x493, 0x493), (0x495, 0x495), (0x497, 0x497), (0x499, 0x499), (0x49B, 0x49B),
        (0x49D, 0x49D), (0x49F, 0x49F), (0x4A1, 0x4A1), (0x4A3, 0x4A3), (0x4A5, 0x4A5),
        (0x4A7, 0x4A7), (0x4A9, 0x4A9), (0x4AB, 0x4AB), (0x4AD, 0x4AD), (0x4AF, 0x4AF),
        (0x4B1, 0x4B1), (0x4B3, 0x4B3), (0x4B5, 0x4B5), (0x4B7, 0x4B7), (0x4B9, 0x4B9),
        (0x4BB, 0x4BB), (0x4BD, 0x4BD), (0x4BF, 0x4BF), (0x4C2, 0x4C2), (0x4C4, 0x4C4),
        (0x4C6, 0x4C6), (0x4C8, 0x4C8), (0x4CA, 0x4CA), (0x4CC, 0x4CC), (0x4CE, 0x4CF),
        (0x4D1, 0x4D1), (0x4D3, 0x4D3), (0x4D5, 0x4D5), (0x4D7, 0x4D7), (0x4D9, 0x4D9),
        (0x4DB, 0x4DB), (0x4DD, 0x4DD), (0x4DF, 0x4DF), (0x4E1, 0x4E1), (0x4E3, 0x4E3),
        (0x4E5, 0x4E5), (0x4E7, 0x4E7), (0x4E9, 0x4E9), (0x4EB, 0x4EB), (0x4ED, 0x4ED),
        (0x4EF, 0x4EF), (0x4F1, 0x4F1), (0x4F3, 0x4F3), (0x4F5, 0x4F5), (0x4F7, 0x4F7),
        (0x4F9, 0x4F9), (0x4FB, 0x4FB), (0x4FD, 0x4FD), (0x4FF, 0x4FF), (0x501, 0x501),
        (0x503, 0x503), (0x505, 0x505), (0x507, 0x507), (0x509, 0x509), (0x50B, 0x50B),
        (0x50D, 0x50D), (0x50F, 0x50F), (0x511, 0x511), (0x513, 0x513), (0x515, 0x515),
        (0x517, 0x517), (0x519, 0x519), (0x51B, 0x51B), (0x51D, 0x51D), (0x51F, 0x51F),
        (0x521, 0x521), (0x523, 0x523), (0x525, 0x525), (0x527, 0x527), (0x529, 0x529),
        (0x52B, 0x52B), (0x52D, 0x52D), (0x52F, 0x52F), (0x560, 0x588), (0x10D0, 0x10FA),
        (0x10FC, 0x10FF), (0x13F8, 0x13FD), (0x1C80, 0x1C88), (0x1C8A, 0x1C8A), (0x1D00, 0x1DBF),
        (0x1E01, 0x1E01), (0x1E03, 0x1E03), (0x1E05, 0x1E05), (0x1E07, 0x1E07), (0x1E09, 0x1E09),
        (0x1E0B, 0x1E0B), (0x1E0D, 0x1E0D), (0x1E0F, 0x1E0F), (0x1E11, 0x1E11), (0x1E13, 0x1E13),
        (0x1E15, 0x1E15), (0x1E17, 0x1E17), (0x1E19, 0x1E19), (0x1E1B, 0x1E1B), (0x1E1D, 0x1E1D),
        (0x1E1F, 0x1E1F), (0x1E21, 0x1E21), (0x1E23, 0x1E23), (0x1E25, 0x1E25), (0x1E27, 0x1E27),
        (0x1E29, 0x1E29), (0x1E2B, 0x1E2B), (0x1E2D, 0x1E2D), (0x1E2F, 0x1E2F), (0x1E31, 0x1E31),
        (0x1E33, 0x1E33), (0x1E35, 0x1E35), (0x1E37, 0x1E37), (0x1E39, 0x1E39), (0x1E3B, 0x1E3B),
        (0x1E3D, 0x1E3D), (0x1E3F, 0x1E3F), (0x1E41, 0x1E41), (0x1E43, 0x1E43), (0x1E45, 0x1E45),
        (0x1E47, 0x1E47), (0x1E49, 0x1E49), (0x1E4B, 0x1E4B), (0x1E4D, 0x1E4D), (0x1E4F, 0x1E4F),
        (0x1E51, 0x1E51), (0x1E53, 0x1E53), (0x1E55, 0x1E55), (0x1E57, 0x1E57), (0x1E59, 0x1E59),
        (0x1E5B, 0x1E5B), (0x1E5D, 0x1E5D), (0x1E5F, 0x1E5F), (0x1E61, 0x1E61), (0x1E63, 0x1E63),
        (0x1E65, 0x1E65), (0x1E67, 0x1E67), (0x1E69, 0x1E69), (0x1E6B, 0x1E6B), (0x1E6D, 0x1E6D),
        (0x1E6F, 0x1E6F), (0x1E71, 0x1E71), (0x1E73, 0x1E73), (0x1E75, 0x1E75), (0x1E77, 0x1E77),
        (0x1E79, 0x1E79), (0x1E7B, 0x1E7B), (0x1E7D, 0x1E7D), (0x1E7F, 0x1E7F), (0x1E81, 0x1E81),
        (0x1E83, 0x1E83), (0x1E85, 0x1E85), (0x1E87, 0x1E87), (0x1E89, 0x1E89), (0x1E8B, 0x1E8B),
        (0x1E8D, 0x1E8D), (0x1E8F, 0x1E8F), (0x1E91, 0x1E91), (0x1E93, 0x1E93), (0x1E95, 0x1E9D),
        (0x1E9F, 0x1E9F), (0x1EA1, 0x1EA1), (0x1EA3, 0x1EA3), (0x1EA5, 0x1EA5), (0x1EA7, 0x1EA7),
        (0x1EA9, 0x1EA9), (0x1EAB, 0x1EAB), (0x1EAD, 0x1EAD), (0x1EAF, 0x1EAF), (0x1EB1, 0x1EB1),
        (0x1EB3, 0x1EB3), (0x1EB5, 0x1EB5), (0x1EB7, 0x1EB7), (0x1EB9, 0x1EB9), (0x1EBB, 0x1EBB),
        (0x1EBD, 0x1EBD), (0x1EBF, 0x1EBF), (0x1EC1, 0x1EC1), (0x1EC3, 0x1EC3), (0x1EC5, 0x1EC5),
        (0x1EC7, 0x1EC7), (0x1EC9, 0x1EC9), (0x1ECB, 0x1ECB), (0x1ECD, 0x1ECD), (0x1ECF, 0x1ECF),
        (0x1ED1, 0x1ED1), (0x1ED3, 0x1ED3), (0x1ED5, 0x1ED5), (0x1ED7, 0x1ED7), (0x1ED9, 0x1ED9),
        (0x1EDB, 0x1EDB), (0x1EDD, 0x1EDD), (0x1EDF, 0x1EDF), (0x1EE1, 0x1EE1), (0x1EE3, 0x1EE3),
        (0x1EE5, 0x1EE5), (0x1EE7, 0x1EE7), (0x1EE9, 0x1EE9), (0x1EEB, 0x1EEB), (0x1EED, 0x1EED),
        (0x1EEF, 0x1EEF), (0x1EF1, 0x1EF1), (0x1EF3, 0x1EF3), (0x1EF5, 0x1EF5), (0x1EF7, 0x1EF7),
        (0x1EF9, 0x1EF9), (0x1EFB, 0x1EFB), (0x1EFD, 0x1EFD), (0x1EFF, 0x1F07), (0x1F10, 0x1F15),
        (0x1F20, 0x1F27), (0x1F30, 0x1F37), (0x1F40, 0x1F45), (0x1F50, 0x1F57), (0x1F60, 0x1F67),
        (0x1F70, 0x1F7D), (0x1F80, 0x1F87), (0x1F90, 0x1F97), (0x1FA0, 0x1FA7), (0x1FB0, 0x1FB4),
        (0x1FB6, 0x1FB7), (0x1FBE, 0x1FBE), (0x1FC2, 0x1FC4), (0x1FC6, 0x1FC7), (0x1FD0, 0x1FD3),
        (0x1FD6, 0x1FD7), (0x1FE0, 0x1FE7), (0x1FF2, 0x1FF4), (0x1FF6, 0x1FF7), (0x2071, 0x2071),
        (0x207F, 0x207F), (0x2090, 0x209C), (0x210A, 0x210A), (0x210E, 0x210F), (0x2113, 0x2113),
        (0x212F, 0x212F), (0x2134, 0x2134), (0x2139, 0x2139), (0x213C, 0x213D), (0x2146, 0x2149),
        (0x214E, 0x214E), (0x2170, 0x217F), (0x2184, 0x2184), (0x24D0, 0x24E9), (0x2C30, 0x2C5F),
        (0x2C61, 0x2C61), (0x2C65, 0x2C66), (0x2C68, 0x2C68), (0x2C6A, 0x2C6A), (0x2C6C, 0x2C6C),
        (0x2C71, 0x2C71), (0x2C73, 0x2C74), (0x2C76, 0x2C7D), (0x2C81, 0x2C81), (0x2C83, 0x2C83),
        (0x2C85, 0x2C85), (0x2C87, 0x2C87), (0x2C89, 0x2C89), (0x2C8B, 0x2C8B), (0x2C8D, 0x2C8D),
        (0x2C8F, 0x2C8F), (0x2C91, 0x2C91), (0x2C93, 0x2C93), (0x2C95, 0x2C95), (0x2C97, 0x2C97),
        (0x2C99, 0x2C99), (0x2C9B, 0x2C9B), (0x2C9D, 0x2C9D), (0x2C9F, 0x2C9F), (0x2CA1, 0x2CA1),
        (0x2CA3, 0x2CA3), (0x2CA5, 0x2CA5), (0x2CA7, 0x2CA7), (0x2CA9, 0x2CA9), (0x2CAB, 0x2CAB),
        (0x2CAD, 0x2CAD), (0x2CAF, 0x2CAF), (0x2CB1, 0x2CB1), (0x2CB3, 0x2CB3), (0x2CB5, 0x2CB5),
        (0x2CB7, 0x2CB7), (0x2CB9, 0x2CB9), (0x2CBB, 0x2CBB), (0x2CBD, 0x2CBD), (0x2CBF, 0x2CBF),
        (0x2CC1, 0x2CC1), (0x2CC3, 0x2CC3), (0x2CC5, 0x2CC5), (0x2CC7, 0x2CC7), (0x2CC9, 0x2CC9),
        (0x2CCB, 0x2CCB), (0x2CCD, 0x2CCD), (0x2CCF, 0x2CCF), (0x2CD1, 0x2CD1), (0x2CD3, 0x2CD3),
        (0x2CD5, 0x2CD5), (0x2CD7, 0x2CD7), (0x2CD9, 0x2CD9), (0x2CDB, 0x2CDB), (0x2CDD, 0x2CDD),
        (0x2CDF, 0x2CDF), (0x2CE1, 0x2CE1), (0x2CE3, 0x2CE4), (0x2CEC, 0x2CEC), (0x2CEE, 0x2CEE),
        (0x2CF3, 0x2CF3), (0x2D00, 0x2D25), (0x2D27, 0x2D27), (0x2D2D, 0x2D2D), (0xA641, 0xA641),
        (0xA643, 0xA643), (0xA645, 0xA645), (0xA647, 0xA647), (0xA649, 0xA649), (0xA64B, 0xA64B),
        (0xA64D, 0xA64D), (0xA64F, 0xA64F), (0xA651, 0xA651), (0xA653, 0xA653), (0xA655, 0xA655),
        (0xA657, 0xA657), (0xA659, 0xA659), (0xA65B, 0xA65B), (0xA65D, 0xA65D), (0xA65F, 0xA65F),
        (0xA661, 0xA661), (0xA663, 0xA663), (0xA665, 0xA665), (0xA667, 0xA667), (0xA669, 0xA669),
        (0xA66B, 0xA66B), (0xA66D, 0xA66D), (0xA681, 0xA681), (0xA683, 0xA683), (0xA685, 0xA685),
        (0xA687, 0xA687), (0xA689, 0xA689), (0xA68B, 0xA68B), (0xA68D, 0xA68D), (0xA68F, 0xA68F),
        (0xA691, 0xA691), (0xA693, 0xA693), (0xA695, 0xA695), (0xA697, 0xA697), (0xA699, 0xA699),
        (0xA69B, 0xA69D), (0xA723, 0xA723), (0xA725, 0xA725), (0xA727, 0xA727), (0xA729, 0xA729),
        (0xA72B, 0xA72B), (0xA72D, 0xA72D), (0xA72F, 0xA731), (0xA733, 0xA733), (0xA735, 0xA735),
        (0xA737, 0xA737), (0xA739, 0xA739), (0xA73B, 0xA73B), (0xA73D, 0xA73D), (0xA73F, 0xA73F),
        (0xA741, 0xA741), (0xA743, 0xA743), (0xA745, 0xA745), (0xA747, 0xA747), (0xA749, 0xA749),
        (0xA74B, 0xA74B), (0xA74D, 0xA74D), (0xA74F, 0xA74F), (0xA751, 0xA751), (0xA753, 0xA753),
        (0xA755, 0xA755), (0xA757, 0xA757), (0xA759, 0xA759), (0xA75B, 0xA75B), (0xA75D, 0xA75D),
        (0xA75F, 0xA75F), (0xA761, 0xA761), (0xA763, 0xA763), (0xA765, 0xA765), (0xA767, 0xA767),
        (0xA769, 0xA769), (0xA76B, 0xA76B), (0xA76D, 0xA76D), (0xA76F, 0xA778), (0xA77A, 0xA77A),
        (0xA77C, 0xA77C), (0xA77F, 0xA77F), (0xA781, 0xA781), (0xA783, 0xA783), (0xA785, 0xA785),
        (0xA787, 0xA787), (0xA78C, 0xA78C), (0xA78E, 0xA78E), (0xA791, 0xA791), (0xA793, 0xA795),
        (0xA797, 0xA797), (0xA799, 0xA799), (0xA79B, 0xA79B), (0xA79D, 0xA79D), (0xA79F, 0xA79F),
        (0xA7A1, 0xA7A1), (0xA7A3, 0xA7A3), (0xA7A5, 0xA7A5), (0xA7A7, 0xA7A7), (0xA7A9, 0xA7A9),
        (0xA7AF, 0xA7AF), (0xA7B5, 0xA7B5), (0xA7B7, 0xA7B7), (0xA7B9, 0xA7B9), (0xA7BB, 0xA7BB),
        (0xA7BD, 0xA7BD), (0xA7BF, 0xA7BF), (0xA7C1, 0xA7C1), (0xA7C3, 0xA7C3), (0xA7C8, 0xA7C8),
        (0xA7CA, 0xA7CA), (0xA7CD, 0xA7CD), (0xA7D1, 0xA7D1), (0xA7D3, 0xA7D3), (0xA7D5, 0xA7D5),
        (0xA7D7, 0xA7D7), (0xA7D9, 0xA7D9), (0xA7DB, 0xA7DB), (0xA7F2, 0xA7F4), (0xA7F6, 0xA7F6),
        (0xA7F8, 0xA7FA), (0xAB30, 0xAB5A), (0xAB5C, 0xAB69), (0xAB70, 0xABBF), (0xFB00, 0xFB06),
        (0xFB13, 0xFB17), (0xFF41, 0xFF5A), (0x10428, 0x1044F), (0x104D8, 0x104FB),
        (0x10597, 0x105A1), (0x105A3, 0x105B1), (0x105B3, 0x105B9), (0x105BB, 0x105BC),
        (0x10780, 0x10780), (0x10783, 0x10785), (0x10787, 0x107B0), (0x107B2, 0x107BA),
        (0x10CC0, 0x10CF2), (0x10D70, 0x10D85), (0x118C0, 0x118DF), (0x16E60, 0x16E7F),
        (0x1D41A, 0x1D433), (0x1D44E, 0x1D454), (0x1D456, 0x1D467), (0x1D482, 0x1D49B),
        (0x1D4B6, 0x1D4B9), (0x1D4BB, 0x1D4BB), (0x1D4BD, 0x1D4C3), (0x1D4C5, 0x1D4CF),
        (0x1D4EA, 0x1D503), (0x1D51E, 0x1D537), (0x1D552, 0x1D56B), (0x1D586, 0x1D59F),
        (0x1D5BA, 0x1D5D3), (0x1D5EE, 0x1D607), (0x1D622, 0x1D63B), (0x1D656, 0x1D66F),
        (0x1D68A, 0x1D6A5), (0x1D6C2, 0x1D6DA), (0x1D6DC, 0x1D6E1), (0x1D6FC, 0x1D714),
        (0x1D716, 0x1D71B), (0x1D736, 0x1D74E), (0x1D750, 0x1D755), (0x1D770, 0x1D788),
        (0x1D78A, 0x1D78F), (0x1D7AA, 0x1D7C2), (0x1D7C4, 0x1D7C9), (0x1D7CB, 0x1D7CB),
        (0x1DF00, 0x1DF09), (0x1DF0B, 0x1DF1E), (0x1DF25, 0x1DF2A), (0x1E030, 0x1E06D),
        (0x1E922, 0x1E943),
    ]
}

/// The Lowercase ranges as a table.
pub fn lowercase_table() -> (r: Vec<(u32, u32)>)
    ensures
        r@ == lowercase_rows(),
{
    let r: Vec<(u32, u32)> = vec![
        (0x61, 0x7A), (0xAA, 0xAA), (0xB5, 0xB5), (0xBA, 0xBA), (0xDF, 0xF6), (0xF8, 0xFF),
        (0x101, 0x101), (0x103, 0x103), (0x105, 0x105), (0x107, 0x107), (0x109, 0x109),
        (0x10B, 0x10B), (0x10D, 0x10D), (0x10F, 0x10F), (0x111, 0x111), (0x113, 0x113),
        (0x115, 0x115), (0x117, 0x117), (0x119, 0x119), (0x11B, 0x11B), (0x11D, 0x11D),
        (0x11F, 0x11F), (0x121, 0x121), (0x123, 0x123), (0x125, 0x125), (0x127, 0x127),
        (0x129, 0x129), (0x12B, 0x12B), (0x12D, 0x12D), (0x12F, 0x12F), (0x131, 0x131),
        (0x133, 0x133), (0x135, 0x135), (0x137, 0x138), (0x13A, 0x13A), (0x13C, 0x13C),
        (0x13E, 0x13E), (0x140, 0x140), (0x142, 0x142), (0x144, 0x144), (0x146, 0x146),
        (0x148, 0x149), (0x14B, 0x14B), (0x14D, 0x14D), (0x14F, 0x14F), (0x151, 0x151),
        (0x153, 0x153), (0x155, 0x155), (0x157, 0x157), (0x159, 0x159), (0x15B, 0x15B),
        (0x15D, 0x15D), (0x15F, 0x15F), (0x161, 0x161), (0x163, 0x163), (0x165, 0x165),
        (0x167, 0x167), (0x169, 0x169), (0x16B, 0x16B), (0x16D, 0x16D), (0x16F, 0x16F),
        (0x171, 0x171), (0x173, 0x173), (0x175, 0x175), (0x177, 0x177), (0x17A, 0x17A),
        (0x17C, 0x17C), (0x17E, 0x180), (0x183, 0x183), (0x185, 0x185), (0x188, 0x188),
        (0x18C, 0x18D), (0x192, 0x192), (0x195, 0x195), (0x199, 0x19B), (0x19E, 0x19E),
        (0x1A1, 0x1A1), (0x1A3, 0x1A3), (0x1A5, 0x1A5), (0x1A8, 0x1A8), (0x1AA, 0x1AB),
        (0x1AD, 0x1AD), (0x1B0, 0x1B0), (0x1B4, 0x1B4), (0x1B6, 0x1B6), (0x1B9, 0x1BA),
        (0x1BD, 0x1BF), (0x1C6, 0x1C6), (0x1C9, 0x1C9), (0x1CC, 0x1CC), (0x1CE, 0x1CE),
        (0x1D0, 0x1D0), (0x1D2, 0x1D2), (0x1D4, 0x1D4), (0x1D6, 0x1D6), (0x1D8, 0x1D8),
        (0x1DA, 0x1DA), (0x1DC, 0x1DD), (0x1DF, 0x1DF), (0x1E1, 0x1E1), (0x1E3, 0x1E3),
        (0x1E5, 0x1E5), (0x1E7, 0x1E7), (0x1E9, 0x1E9), (0x1EB, 0x1EB), (0x1ED, 0x1ED),
        (0x1EF, 0x1F0), (0x1F3, 0x1F3), (0x1F5, 0x1F5), (0x1F9, 0x1F9), (0x1FB, 0x1FB),
        (0x1FD, 0x1FD), (0x1FF, 0x1FF), (0x201, 0x201), (0x203, 0x203), (0x205, 0x205),
        (0x207, 0x207), (0x209, 0x209), (0x20B, 0x20B), (0x20D, 0x20D), (0x20F, 0x20F),
        (0x211, 0x211), (0x213, 0x213), (0x215, 0x215), (0x217, 0x217), (0x219, 0x219),
        (0x21B, 0x21B), (0x21D, 0x21D), (0x21F, 0x21F), (0x221, 0x221), (0x223, 0x223),
        (0x225, 0x225), (0x227, 0x227), (0x229, 0x229), (0x22B, 0x22B), (0x22D, 0x22D),
        (0x22F, 0x22F), (0x231, 0x231), (0x233, 0x239), (0x23C, 0x23C), (0x23F, 0x240),
        (0x242, 0x242), (0x247, 0x247), (0x249, 0x249), (0x24B, 0x24B), (0x24D, 0x24D),
        (0x24F, 0x293), (0x295, 0x2B8), (0x2C0, 0x2C1), (0x2E0, 0x2E4), (0x345, 0x345),
        (0x371, 0x371), (0x373, 0x373), (0x377, 0x377), (0x37A, 0x37D), (0x390, 0x390),
        (0x3AC, 0x3CE), (0x3D0, 0x3D1), (0x3D5, 0x3D7), (0x3D9, 0x3D9), (0x3DB, 0x3DB),
        (0x3DD, 0x3DD), (0x3DF, 0x3DF), (0x3E1, 0x3E1), (0x3E3, 0x3E3), (0x3E5, 0x3E5),
        (0x3E7, 0x3E7), (0x3E9, 0x3E9), (0x3EB, 0x3EB), (0x3ED, 0x3ED), (0x3EF, 0x3F3),
        (0x3F5, 0x3F5), (0x3F8, 0x3F8), (0x3FB, 0x3FC), (0x430, 0x45F), (0x461, 0x461),
        (0x463, 0x463), (0x465, 0x465), (0x467, 0x467), (0x469, 0x469), (0x46B, 0x46B),
        (0x46D, 0x46D), (0x46F, 0x46F), (0x471, 0x471), (0x473, 0x473), (0x475, 0x475),
        (0x477, 0x477), (0x479, 0x479), (0x47B, 0x47B), (0x47D, 0x47D), (0x47F, 0x47F),
        (0x481, 0x481), (0x48B, 0x48B), (0x48D, 0x48D), (0x48F, 0x48F), (0x491, 0x491),
        (0x493, 0x493), (0x495, 0x495), (0x497, 0x497), (0x499, 0x499), (0x49B, 0x49B),
        (0x49D, 0x49D), (0x49F, 0x49F), (0x4A1, 0x4A1), (0x4A3, 0x4A3), (0x4A5, 0x4A5),
        (0x4A7, 0x4A7), (0x4A9, 0x4A9), (0x4AB, 0x4AB), (0x4AD, 0x4AD), (0x4AF, 0x4AF),
        (0x4B1, 0x4B1), (0x4B3, 0x4B3), (0x4B5, 0x4B5), (0x4B7, 0x4B7), (0x4B9, 0x4B9),
        (0x4BB, 0x4BB), (0x4BD, 0x4BD), (0x4BF, 0x4BF), (0x4C2, 0x4C2), (0x4C4, 0x4C4),
        (0x4C6, 0x4C6), (0x4C8, 0x4C8), (0x4CA, 0x4CA), (0x4CC, 0x4CC), (0x4CE, 0x4CF),
        (0x4D1, 0x4D1), (0x4D3, 0x4D3), (0x4D5, 0x4D5), (0x4D7, 0x4D7), (0x4D9, 0x4D9),
        (0x4DB, 0x4DB), (0x4DD, 0x4DD), (0x4DF, 0x4DF), (0x4E1, 0x4E1), (0x4E3, 0x4E3),
        (0x4E5, 0x4E5), (0x4E7, 0x4E7), (0x4E9, 0x4E9), (0x4EB, 0x4EB), (0x4ED, 0x4ED),
        (0x4EF, 0x4EF), (0x4F1, 0x4F1), (0x4F3, 0x4F3), (0x4F5, 0x4F5), (0x4F7, 0x4F7),
        (0x4F9, 0x4F9), (0x4FB, 0x4FB), (0x4FD, 0x4FD), (0x4FF, 0x4FF), (0x501, 0x501),
        (0x503, 0x503), (0x505, 0x505), (0x507, 0x507), (0x509, 0x509), (0x50B, 0x50B),
        (0x50D, 0x50D), (0x50F, 0x50F), (0x511, 0x511), (0x513, 0x513), (0x515, 0x515),
        (0x517, 0x517), (0x519, 0x519), (0x51B, 0x51B), (0x51D, 0x51D), (0x51F, 0x51F),
        (0x521, 0x521), (0x523, 0x523), (0x525, 0x525), (0x527, 0x527), (0x529, 0x529),
        (0x52B, 0x52B), (0x52D, 0x52D), (0x52F, 0x52F), (0x560, 0x588), (0x10D0, 0x10FA),
        (0x10FC, 0x10FF), (0x13F8, 0x13FD), (0x1C80, 0x1C88), (0x1C8A, 0x1C8A), (0x1D00, 0x1DBF),
        (0x1E01, 0x1E01), (0x1E03, 0x1E03), (0x1E05, 0x1E05), (0x1E07, 0x1E07), (0x1E09, 0x1E09),
        (0x1E0B, 0x1E0B), (0x1E0D, 0x1E0D), (0x1E0F, 0x1E0F), (0x1E11, 0x1E11), (0x1E13, 0x1E13),
        (0x1E15, 0x1E15), (0x1E17, 0x1E17), (0x1E19, 0x1E19), (0x1E1B, 0x1E1B), (0x1E1D, 0x1E1D),
        (0x1E1F, 0x1E1F), (0x1E21, 0x1E21), (0x1E23, 0x1E23), (0x1E25, 0x1E25), (0x1E27, 0x1E27),
        (0x1E29, 0x1E29), (0x1E2B, 0x1E2B), (0x1E2D, 0x1E2D), (0x1E2F, 0x1E2F), (0x1E31, 0x1E31),
        (0x1E33, 0x1E33), (0x1E35, 0x1E35), (0x1E37, 0x1E37), (0x1E39, 0x1E39), (0x1E3B, 0x1E3B),
        (0x1E3D, 0x1E3D), (0x1E3F, 0x1E3F), (0x1E41, 0x1E41), (0x1E43, 0x1E43), (0x1E45, 0x1E45),
        (0x1E47, 0x1E47), (0x1E49, 0x1E49), (0x1E4B, 0x1E4B), (0x1E4D, 0x1E4D), (0x1E4F, 0x1E4F),
        (0x1E51, 0x1E51), (0x1E53, 0x1E53), (0x1E55, 0x1E55), (0x1E57, 0x1E57), (0x1E59, 0x1E59),
        (0x1E5B, 0x1E5B), (0x1E5D, 0x1E5D), (0x1E5F, 0x1E5F), (0x1E61, 0x1E61), (0x1E63, 0x1E63),
        (0x1E65, 0x1E65), (0x1E67, 0x1E67), (0x1E69, 0x1E69), (0x1E6B, 0x1E6B), (0x1E6D, 0x1E6D),
        (0x1E6F, 0x1E6F), (0x1E71, 0x1E71), (0x1E73, 0x1E73), (0x1E75, 0x1E75), (0x1E77, 0x1E77),
        (0x1E79, 0x1E79), (0x1E7B, 0x1E7B), (0x1E7D, 0x1E7D), (0x1E7F, 0x1E7F), (0x1E81, 0x1E81),
        (0x1E83, 0x1E83), (0x1E85, 0x1E85), (0x1E87, 0x1E87), (0x1E89, 0x1E89), (0x1E8B, 0x1E8B),
        (0x1E8D, 0x1E8D), (0x1E8F, 0x1E8F), (0x1E91, 0x1E91), (0x1E93, 0x1E93), (0x1E95, 0x1E9D),
        (0x1E9F, 0x1E9F), (0x1EA1, 0x1EA1), (0x1EA3, 0x1EA3), (0x1EA5, 0x1EA5), (0x1EA7, 0x1EA7),
        (0x1EA9, 0x1EA9), (0x1EAB, 0x1EAB), (0x1EAD, 0x1EAD), (0x1EAF, 0x1EAF), (0x1EB1, 0x1EB1),
        (0x1EB3, 0x1EB3), (0x1EB5, 0x1EB5), (0x1EB7, 0x1EB7), (0x1EB9, 0x1EB9), (0x1EBB, 0x1EBB),
        (0x1EBD, 0x1EBD), (0x1EBF, 0x1EBF), (0x1EC1, 0x1EC1), (0x1EC3, 0x1EC3), (0x1EC5, 0x1EC5),
        (0x1EC7, 0x1EC7), (0x1EC9, 0x1EC9), (0x1ECB, 0x1ECB), (0x1ECD, 0x1ECD), (0x1ECF, 0x1ECF),
        (0x1ED1, 0x1ED1), (0x1ED3, 0x1ED3), (0x1ED5, 0x1ED5), (0x1ED7, 0x1ED7), (0x1ED9, 0x1ED9),
        (0x1EDB, 0x1EDB), (0x1EDD, 0x1EDD), (0x1EDF, 0x1EDF), (0x1EE1, 0x1EE1), (0x1EE3, 0x1EE3),
        (0x1EE5, 0x1EE5), (0x1EE7, 0x1EE7), (0x1EE9, 0x1EE9), (0x1EEB, 0x1EEB), (0x1EED, 0x1EED),
        (0x1EEF, 0x1EEF), (0x1EF1, 0x1EF1), (0x1EF3, 0x1EF3), (0x1EF5, 0x1EF5), (0x1EF7, 0x1EF7),
        (0x1EF9, 0x1EF9), (0x1EFB, 0x1EFB), (0x1EFD, 0x1EFD), (0x1EFF, 0x1F07), (0x1F10, 0x1F15),
        (0x1F20, 0x1F27), (0x1F30, 0x1F37), (0x1F40, 0x1F45), (0x1F50, 0x1F57), (0x1F60, 0x1F67),
        (0x1F70, 0x1F7D), (0x1F80, 0x1F87), (0x1F90, 0x1F97), (0x1FA0, 0x1FA7), (0x1FB0, 0x1FB4),
        (0x1FB6, 0x1FB7), (0x1FBE, 0x1FBE), (0x1FC2, 0x1FC4), (0x1FC6, 0x1FC7), (0x1FD0, 0x1FD3),
        (0x1FD6, 0x1FD7), (0x1FE0, 0x1FE7), (0x1FF2, 0x1FF4), (0x1FF6, 0x1FF7), (0x2071, 0x2071),
        (0x207F, 0x207F), (0x2090, 0x209C), (0x210A, 0x210A), (0x210E, 0x210F), (0x2113, 0x2113),
        (0x212F, 0x212F), (0x2134, 0x2134), (0x2139, 0x2139), (0x213C, 0x213D), (0x2146, 0x2149),
        (0x214E, 0x214E), (0x2170, 0x217F), (0x2184, 0x2184), (0x24D0, 0x24E9), (0x2C30, 0x2C5F),
        (0x2C61, 0x2C61), (0x2C65, 0x2C66), (0x2C68, 0x2C68), (0x2C6A, 0x2C6A), (0x2C6C, 0x2C6C),
        (0x2C71, 0x2C71), (0x2C73, 0x2C74), (0x2C76, 0x2C7D), (0x2C81, 0x2C81), (0x2C83, 0x2C83),
        (0x2C85, 0x2C85), (0x2C87, 0x2C87), (0x2C89, 0x2C89), (0x2C8B, 0x2C8B), (0x2C8D, 0x2C8D),
        (0x2C8F, 0x2C8F), (0x2C91, 0x2C91), (0x2C93, 0x2C93), (0x2C95, 0x2C95), (0x2C97, 0x2C97),
        (0x2C99, 0x2C99), (0x2C9B, 0x2C9B), (0x2C9D, 0x2C9D), (0x2C9F, 0x2C9F), (0x2CA1, 0x2CA1),
        (0x2CA3, 0x2CA3), (0x2CA5, 0x2CA5), (0x2CA7, 0x2CA7), (0x2CA9, 0x2CA9), (0x2CAB, 0x2CAB),
        (0x2CAD, 0x2CAD), (0x2CAF, 0x2CAF), (0x2CB1, 0x2CB1), (0x2CB3, 0x2CB3), (0x2CB5, 0x2CB5),
        (0x2CB7, 0x2CB7), (0x2CB9, 0x2CB9), (0x2CBB, 0x2CBB), (0x2CBD, 0x2CBD), (0x2CBF, 0x2CBF),
        (0x2CC1, 0x2CC1), (0x2CC3, 0x2CC3), (0x2CC5, 0x2CC5), (0x2CC7, 0x2CC7), (0x2CC9, 0x2CC9),
        (0x2CCB, 0x2CCB), (0x2CCD, 0x2CCD), (0x2CCF, 0x2CCF), (0x2CD1, 0x2CD1), (0x2CD3, 0x2CD3),
        (0x2CD5, 0x2CD5), (0x2CD7, 0x2CD7), (0x2CD9, 0x2CD9), (0x2CDB, 0x2CDB), (0x2CDD, 0x2CDD),
        (0x2CDF, 0x2CDF), (0x2CE1, 0x2CE1), (0x2CE3, 0x2CE4), (0x2CEC, 0x2CEC), (0x2CEE, 0x2CEE),
        (0x2CF3, 0x2CF3), (0x2D00, 0x2D25), (0x2D27, 0x2D27), (0x2D2D, 0x2D2D), (0xA641, 0xA641),
        (0xA643, 0xA643), (0xA645, 0xA645), (0xA647, 0xA647), (0xA649, 0xA649), (0xA64B, 0xA64B),
        (0xA64D, 0xA64D), (0xA64F, 0xA64F), (0xA651, 0xA651), (0xA653, 0xA653), (0xA655, 0xA655),
        (0xA657, 0xA657), (0xA659, 0xA659), (0xA65B, 0xA65B), (0xA65D, 0xA65D), (0xA65F, 0xA65F),
        (0xA661, 0xA661), (0xA663, 0xA663), (0xA665, 0xA665), (0xA667, 0xA667), (0xA669, 0xA669),
        (0xA66B, 0xA66B), (0xA66D, 0xA66D), (0xA681, 0xA681), (0xA683, 0xA683), (0xA685, 0xA685),
        (0xA687, 0xA687), (0xA689, 0xA689), (0xA68B, 0xA68B), (0xA68D, 0xA68D), (0xA68F, 0xA68F),
        (0xA691, 0xA691), (0xA693, 0xA693), (0xA695, 0xA695), (0xA697, 0xA697), (0xA699, 0xA699),
        (0xA69B, 0xA69D), (0xA723, 0xA723), (0xA725, 0xA725), (0xA727, 0xA727), (0xA729, 0xA729),
        (0xA72B, 0xA72B), (0xA72D, 0xA72D), (0xA72F, 0xA731), (0xA733, 0xA733), (0xA735, 0xA735),
        (0xA737, 0xA737), (0xA739, 0xA739), (0xA73B, 0xA73B), (0xA73D, 0xA73D), (0xA73F, 0xA73F),
        (0xA741, 0xA741), (0xA743, 0xA743), (0xA745, 0xA745), (0xA747, 0xA747), (0xA749, 0xA749),
        (0xA74B, 0xA74B), (0xA74D, 0xA74D), (0xA74F, 0xA74F), (0xA751, 0xA751), (0xA753, 0xA753),
        (0xA755, 0xA755), (0xA757, 0xA757), (0xA759, 0xA759), (0xA75B, 0xA75B), (0xA75D, 0xA75D),
        (0xA75F, 0xA75F), (0xA761, 0xA761), (0xA763, 0xA763), (0xA765, 0xA765), (0xA767, 0xA767),
        (0xA769, 0xA769), (0xA76B, 0xA76B), (0xA76D, 0xA76D), (0xA76F, 0xA778), (0xA77A, 0xA77A),
        (0xA77C, 0xA77C), (0xA77F, 0xA77F), (0xA781, 0xA781), (0xA783, 0xA783), (0xA785, 0xA785),
        (0xA787, 0xA787), (0xA78C, 0xA78C), (0xA78E, 0xA78E), (0xA791, 0xA791), (0xA793, 0xA795),
        (0xA797, 0xA797), (0xA799, 0xA799), (0xA79B, 0xA79B), (0xA79D, 0xA79D), (0xA79F, 0xA79F),
        (0xA7A1, 0xA7A1), (0xA7A3, 0xA7A3), (0xA7A5, 0xA7A5), (0xA7A7, 0xA7A7), (0xA7A9, 0xA7A9),
        (0xA7AF, 0xA7AF), (0xA7B5, 0xA7B5), (0xA7B7, 0xA7B7), (0xA7B9, 0xA7B9), (0xA7BB, 0xA7BB),
        (0xA7BD, 0xA7BD), (0xA7BF, 0xA7BF), (0xA7C1, 0xA7C1), (0xA7C3, 0xA7C3), (0xA7C8, 0xA7C8),
        (0xA7CA, 0xA7CA), (0xA7CD, 0xA7CD), (0xA7D1, 0xA7D1), (0xA7D3, 0xA7D3), (0xA7D5, 0xA7D5),
        (0xA7D7, 0xA7D7), (0xA7D9, 0xA7D9), (0xA7DB, 0xA7DB), (0xA7F2, 0xA7F4), (0xA7F6, 0xA7F6),
        (0xA7F8, 0xA7FA), (0xAB30, 0xAB5A), (0xAB5C, 0xAB69), (0xAB70, 0xABBF), (0xFB00, 0xFB06),
        (0xFB13, 0xFB17), (0xFF41, 0xFF5A), (0x10428, 0x1044F), (0x104D8, 0x104FB),
        (0x10597, 0x105A1), (0x105A3, 0x105B1), (0x105B3, 0x105B9), (0x105BB, 0x105BC),
        (0x10780, 0x10780), (0x10783, 0x10785), (0x10787, 0x107B0), (0x107B2, 0x107BA),
        (0x10CC0, 0x10CF2), (0x10D70, 0x10D85), (0x118C0, 0x118DF), (0x16E60, 0x16E7F),
        (0x1D41A, 0x1D433), (0x1D44E, 0x1D454), (0x1D456, 0x1D467), (0x1D482, 0x1D49B),
        (0x1D4B6, 0x1D4B9), (0x1D4BB, 0x1D4BB), (0x1D4BD, 0x1D4C3), (0x1D4C5, 0x1D4CF),
        (0x1D4EA, 0x1D503), (0x1D51E, 0x1D537), (0x1D552, 0x1D56B), (0x1D586, 0x1D59F),
        (0x1D5BA, 0x1D5D3), (0x1D5EE, 0x1D607), (0x1D622, 0x1D63B), (0x1D656, 0x1D66F),
        (0x1D68A, 0x1D6A5), (0x1D6C2, 0x1D6DA), (0x1D6DC, 0x1D6E1), (0x1D6FC, 0x1D714),
        (0x1D716, 0x1D71B), (0x1D736, 0x1D74E), (0x1D750, 0x1D755), (0x1D770, 0x1D788),
        (0x1D78A, 0x1D78F), (0x1D7AA, 0x1D7C2), (0x1D7C4, 0x1D7C9), (0x1D7CB, 0x1D7CB),
        (0x1DF00, 0x1DF09), (0x1DF0B, 0x1DF1E), (0x1DF25, 0x1DF2A), (0x1E030, 0x1E06D),
        (0x1E922, 0x1E943),
    ];
    proof {
        assert(r@ =~= lowercase_rows());
    }
    r
}

#[verifier::rlimit(100)]
pub proof fn lemma_lowercase_ordered()
    ensures
        ordered_flag_rows(lowercase_rows()),
{
}

/// The Lowercase property of a character: `true` for lowercase characters.
#[derive(Clone, Copy, Debug, PartialEq, Eq, Structural, Hash)]
pub struct Lowercase(pub bool);

/// Whether `ch` has the Lowercase property.
pub fn is_lowercase(ch: char) -> (r: bool)
    ensures
        r == covered(lowercase_rows(), ch as u32 as int),
{
    let t = lowercase_table();
    proof {
        lemma_lowercase_ordered();
    }
    lookup_flag(&t, ch as u32)
}

impl Lowercase {
    /// The Lowercase property of `ch`.
    pub fn of(ch: char) -> (r: Lowercase)
        ensures
            r.0 == covered(lowercase_rows(), ch as u32 as int),
    {
        Lowercase(is_lowercase(ch))
    }

    /// Whether the property holds.
    pub fn as_bool(&self) -> (r: bool)
        ensures
            r == self.0,
    {
        self.0
    }

    /// The short name of the property.
    pub fn abbr_name() -> &'static str {
        "Lower"
    }

    /// The long name of the property.
    pub fn long_name() -> &'static str {
        "Lowercase"
    }

    /// The name of the property for people to read.
    pub fn human_name() -> &'static str {
        "Lowercase"
    }
}

impl CharProperty for Lowercase {
    fn of(ch: char) -> Self {
        Lowercase::of(ch)
    }
}

} // verus!
