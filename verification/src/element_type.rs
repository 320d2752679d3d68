//! The element types of the MSH file format and their node counts.

use vstd::prelude::*;

verus! {

/// Element types supported by the MSH file format
///
/// The names and codes follow the definitions of Gmsh.
#[derive(Copy, Clone, Debug, PartialEq, Eq, Hash, Structural)]
pub enum ElementType {
    Lin2,
    Tri3,
    Qua4,
    Tet4,
    Hex8,
    Pri6,
    Pyr5,
    Lin3,
    Tri6,
    Qua9,
    Tet10,
    Hex27,
    Pri18,
    Pyr14,
    Pnt,
    Qua8,
    Hex20,
    Pri15,
    Pyr13,
    Tri9,
    Tri10,
    Tri12,
    Tri15,
    Tri15i,
    Tri21,
    Lin4,
    Lin5,
    Lin6,
    Tet20,
    Tet35,
    Tet56,
    Tet22,
    Tet28,
    Polyg,
    Polyh,
    Qua16,
    Qua25,
    Qua36,
    Qua12,
    Qua16i,
    Qua20,
    Tri28,
    Tri36,
    Tri45,
    Tri55,
    Tri66,
    Qua49,
    Qua64,
    Qua81,
    Qua100,
    Qua121,
    Tri18,
    Tri21i,
    Tri24,
    Tri27,
    Tri30,
    Qua24,
    Qua28,
    Qua32,
    Qua36i,
    Qua40,
    Lin7,
    Lin8,
    Lin9,
    Lin10,
    Lin11,
    LinB,
    TriB,
    PolygB,
    LinC,
    Tet84,
    Tet120,
    Tet165,
    Tet220,
    Tet286,
    Tet34,
    Tet40,
    Tet46,
    Tet52,
    Tet58,
    Lin1,
    Tri1,
    Qua1,
    Tet1,
    Hex1,
    Pri1,
    Pri40,
    Pri75,
    Hex64,
    Hex125,
    Hex216,
    Hex343,
    Hex512,
    Hex729,
    Hex1000,
    Hex32,
    Hex44,
    Hex56,
    Hex68,
    Hex80,
    Hex92,
    Hex104,
    Pri126,
    Pri196,
    Pri288,
    Pri405,
    Pri550,
    Pri24,
    Pri33,
    Pri42,
    Pri51,
    Pri60,
    Pri69,
    Pri78,
    Pyr30,
    Pyr55,
    Pyr91,
    Pyr140,
    Pyr204,
    Pyr285,
    Pyr385,
    Pyr21,
    Pyr29,
    Pyr37,
    Pyr45,
    Pyr53,
    Pyr61,
    Pyr69,
    Pyr1,
    PntSub,
    LinSub,
    TriSub,
    TetSub,
    Tet16,
    TriMini,
    TetMini,
    Trih4,
}

/// The element type that a code of the file format stands for, if any.
pub open spec fn element_type_of(code: int) -> Option<ElementType> {
    if code == 1 {
        Some(ElementType::Lin2)
    } else if code == 2 {
        Some(ElementType::Tri3)
    } else if code == 3 {
        Some(ElementType::Qua4)
    } else if code == 4 {
        Some(ElementType::Tet4)
    } else if code == 5 {
        Some(ElementType::Hex8)
    } else if code == 6 {
        Some(ElementType::Pri6)
    } else if code == 7 {
        Some(ElementType::Pyr5)
    } else if code == 8 {
        Some(ElementType::Lin3)
    } else if code == 9 {
        Some(ElementType::Tri6)
    } else if code == 10 {
        Some(ElementType::Qua9)
    } else if code == 11 {
        Some(ElementType::Tet10)
    } else if code == 12 {
        Some(ElementType::Hex27)
    } else if code == 13 {
        Some(ElementType::Pri18)
    } else if code == 14 {
        Some(ElementType::Pyr14)
    } else if code == 15 {
        Some(ElementType::Pnt)
    } else if code == 16 {
        Some(ElementType::Qua8)
    } else if code == 17 {
        Some(ElementType::Hex20)
    } else if code == 18 {
        Some(ElementType::Pri15)
    } else if code == 19 {
        Some(ElementType::Pyr13)
    } else if code == 20 {
        Some(ElementType::Tri9)
    } else if code == 21 {
        Some(ElementType::Tri10)
    } else if code == 22 {
        Some(ElementType::Tri12)
    } else if code == 23 {
        Some(ElementType::Tri15)
    } else if code == 24 {
        Some(ElementType::Tri15i)
    } else if code == 25 {
        Some(ElementType::Tri21)
    } else if code == 26 {
        Some(ElementType::Lin4)
    } else if code == 27 {
        Some(ElementType::Lin5)
    } else if code == 28 {
        Some(ElementType::Lin6)
    } else if code == 29 {
        Some(ElementType::Tet20)
    } else if code == 30 {
        Some(ElementType::Tet35)
    } else if code == 31 {
        Some(ElementType::Tet56)
    } else if code == 32 {
        Some(ElementType::Tet22)
    } else if code == 33 {
        Some(ElementType::Tet28)
    } else if code == 34 {
        Some(ElementType::Polyg)
    } else if code == 35 {
        Some(ElementType::Polyh)
    } else if code == 36 {
        Some(ElementType::Qua16)
    } else if code == 37 {
        Some(ElementType::Qua25)
    } else if code == 38 {
        Some(ElementType::Qua36)
    } else if code == 39 {
        Some(ElementType::Qua12)
    } else if code == 40 {
        Some(ElementType::Qua16i)
    } else if code == 41 {
        Some(ElementType::Qua20)
    } else if code == 42 {
        Some(ElementType::Tri28)
    } else if code == 43 {
        Some(ElementType::Tri36)
    } else if code == 44 {
        Some(ElementType::Tri45)
    } else if code == 45 {
        Some(ElementType::Tri55)
    } else if code == 46 {
        Some(ElementType::Tri66)
    } else if code == 47 {
        Some(ElementType::Qua49)
    } else if code == 48 {
        Some(ElementType::Qua64)
    } else if code == 49 {
        Some(ElementType::Qua81)
    } else if code == 50 {
        Some(ElementType::Qua100)
    } else if code == 51 {
        Some(ElementType::Qua121)
    } else if code == 52 {
        Some(ElementType::Tri18)
    } else if code == 53 {
        Some(ElementType::Tri21i)
    } else if code == 54 {
        Some(ElementType::Tri24)
    } else if code == 55 {
        Some(ElementType::Tri27)
    } else if code == 56 {
        Some(ElementType::Tri30)
    } else if code == 57 {
        Some(ElementType::Qua24)
    } else if code == 58 {
        Some(ElementType::Qua28)
    } else if code == 59 {
        Some(ElementType::Qua32)
    } else if code == 60 {
        Some(ElementType::Qua36i)
    } else if code == 61 {
        Some(ElementType::Qua40)
    } else if code == 62 {
        Some(ElementType::Lin7)
    } else if code == 63 {
        Some(ElementType::Lin8)
    } else if code == 64 {
        Some(ElementType::Lin9)
    } else if code == 65 {
        Some(ElementType::Lin10)
    } else if code == 66 {
        Some(ElementType::Lin11)
    } else if code == 67 {
        Some(ElementType::LinB)
    } else if code == 68 {
        Some(ElementType::TriB)
    } else if code == 69 {
        Some(ElementType::PolygB)
    } else if code == 70 {
        Some(ElementType::LinC)
    } else if code == 71 {
        Some(ElementType::Tet84)
    } else if code == 72 {
        Some(ElementType::Tet120)
    } else if code == 73 {
        Some(ElementType::Tet165)
    } else if code == 74 {
        Some(ElementType::Tet220)
    } else if code == 75 {
        Some(ElementType::Tet286)
    } else if code == 79 {
        Some(ElementType::Tet34)
    } else if code == 80 {
        Some(ElementType::Tet40)
    } else if code == 81 {
        Some(ElementType::Tet46)
    } else if code == 82 {
        Some(ElementType::Tet52)
    } else if code == 83 {
        Some(ElementType::Tet58)
    } else if code == 84 {
        Some(ElementType::Lin1)
    } else if code == 85 {
        Some(ElementType::Tri1)
    } else if code == 86 {
        Some(ElementType::Qua1)
    } else if code == 87 {
        Some(ElementType::Tet1)
    } else if code == 88 {
        Some(ElementType::Hex1)
    } else if code == 89 {
        Some(ElementType::Pri1)
    } else if code == 90 {
        Some(ElementType::Pri40)
    } else if code == 91 {
        Some(ElementType::Pri75)
    } else if code == 92 {
        Some(ElementType::Hex64)
    } else if code == 93 {
        Some(ElementType::Hex125)
    } else if code == 94 {
        Some(ElementType::Hex216)
    } else if code == 95 {
        Some(ElementType::Hex343)
    } else if code == 96 {
        Some(ElementType::Hex512)
    } else if code == 97 {
        Some(ElementType::Hex729)
    } else if code == 98 {
        Some(ElementType::Hex1000)
    } else if code == 99 {
        Some(ElementType::Hex32)
    } else if code == 100 {
        Some(ElementType::Hex44)
    } else if code == 101 {
        Some(ElementType::Hex56)
    } else if code == 102 {
        Some(ElementType::Hex68)
    } else if code == 103 {
        Some(ElementType::Hex80)
    } else if code == 104 {
        Some(ElementType::Hex92)
    } else if code == 105 {
        Some(ElementType::Hex104)
    } else if code == 106 {
        Some(ElementType::Pri126)
    } else if code == 107 {
        Some(ElementType::Pri196)
    } else if code == 108 {
        Some(ElementType::Pri288)
    } else if code == 109 {
        Some(ElementType::Pri405)
    } else if code == 110 {
        Some(ElementType::Pri550)
    } else if code == 111 {
        Some(ElementType::Pri24)
    } else if code == 112 {
        Some(ElementType::Pri33)
    } else if code == 113 {
        Some(ElementType::Pri42)
    } else if code == 114 {
        Some(ElementType::Pri51)
    } else if code == 115 {
        Some(ElementType::Pri60)
    } else if code == 116 {
        Some(ElementType::Pri69)
    } else if code == 117 {
        Some(ElementType::Pri78)
    } else if code == 118 {
        Some(ElementType::Pyr30)
    } else if code == 119 {
        Some(ElementType::Pyr55)
    } else if code == 120 {
        Some(ElementType::Pyr91)
    } else if code == 121 {
        Some(ElementType::Pyr140)
    } else if code == 122 {
        Some(ElementType::Pyr204)
    } else if code == 123 {
        Some(ElementType::Pyr285)
    } else if code == 124 {
        Some(ElementType::Pyr385)
    } else if code == 125 {
        Some(ElementType::Pyr21)
    } else if code == 126 {
        Some(ElementType::Pyr29)
    } else if code == 127 {
        Some(ElementType::Pyr37)
    } else if code == 128 {
        Some(ElementType::Pyr45)
    } else if code == 129 {
        Some(ElementType::Pyr53)
    } else if code == 130 {
        Some(ElementType::Pyr61)
    } else if code == 131 {
        Some(ElementType::Pyr69)
    } else if code == 132 {
        Some(ElementType::Pyr1)
    } else if code == 133 {
        Some(ElementType::PntSub)
    } else if code == 134 {
        Some(ElementType::LinSub)
    } else if code == 135 {
        Some(ElementType::TriSub)
    } else if code == 136 {
        Some(ElementType::TetSub)
    } else if code == 137 {
        Some(ElementType::Tet16)
    } else if code == 138 {
        Some(ElementType::TriMini)
    } else if code == 139 {
        Some(ElementType::TetMini)
    } else if code == 140 {
        Some(ElementType::Trih4)
    } else {
        None
    }
}

/// The code that stands for an element type in the file format.
pub open spec fn code_of(t: ElementType) -> int {
    match t {
        ElementType::Lin2 => 1,
        ElementType::Tri3 => 2,
        ElementType::Qua4 => 3,
        ElementType::Tet4 => 4,
        ElementType::Hex8 => 5,
        ElementType::Pri6 => 6,
        ElementType::Pyr5 => 7,
        ElementType::Lin3 => 8,
        ElementType::Tri6 => 9,
        ElementType::Qua9 => 10,
        ElementType::Tet10 => 11,
        ElementType::Hex27 => 12,
        ElementType::Pri18 => 13,
        ElementType::Pyr14 => 14,
        ElementType::Pnt => 15,
        ElementType::Qua8 => 16,
        ElementType::Hex20 => 17,
        ElementType::Pri15 => 18,
        ElementType::Pyr13 => 19,
        ElementType::Tri9 => 20,
        ElementType::Tri10 => 21,
        ElementType::Tri12 => 22,
        ElementType::Tri15 => 23,
        ElementType::Tri15i => 24,
        ElementType::Tri21 => 25,
        ElementType::Lin4 => 26,
        ElementType::Lin5 => 27,
        ElementType::Lin6 => 28,
        ElementType::Tet20 => 29,
        ElementType::Tet35 => 30,
        ElementType::Tet56 => 31,
        ElementType::Tet22 => 32,
        ElementType::Tet28 => 33,
        ElementType::Polyg => 34,
        ElementType::Polyh => 35,
        ElementType::Qua16 => 36,
        ElementType::Qua25 => 37,
        ElementType::Qua36 => 38,
        ElementType::Qua12 => 39,
        ElementType::Qua16i => 40,
        ElementType::Qua20 => 41,
        ElementType::Tri28 => 42,
        ElementType::Tri36 => 43,
        ElementType::Tri45 => 44,
        ElementType::Tri55 => 45,
        ElementType::Tri66 => 46,
        ElementType::Qua49 => 47,
        ElementType::Qua64 => 48,
        ElementType::Qua81 => 49,
        ElementType::Qua100 => 50,
        ElementType::Qua121 => 51,
        ElementType::Tri18 => 52,
        ElementType::Tri21i => 53,
        ElementType::Tri24 => 54,
        ElementType::Tri27 => 55,
        ElementType::Tri30 => 56,
        ElementType::Qua24 => 57,
        ElementType::Qua28 => 58,
        ElementType::Qua32 => 59,
        ElementType::Qua36i => 60,
        ElementType::Qua40 => 61,
        ElementType::Lin7 => 62,
        ElementType::Lin8 => 63,
        ElementType::Lin9 => 64,
        ElementType::Lin10 => 65,
        ElementType::Lin11 => 66,
        ElementType::LinB => 67,
        ElementType::TriB => 68,
        ElementType::PolygB => 69,
        ElementType::LinC => 70,
        ElementType::Tet84 => 71,
        ElementType::Tet120 => 72,
        ElementType::Tet165 => 73,
        ElementType::Tet220 => 74,
        ElementType::Tet286 => 75,
        ElementType::Tet34 => 79,
        ElementType::Tet40 => 80,
        ElementType::Tet46 => 81,
        ElementType::Tet52 => 82,
        ElementType::Tet58 => 83,
        ElementType::Lin1 => 84,
        ElementType::Tri1 => 85,
        ElementType::Qua1 => 86,
        ElementType::Tet1 => 87,
        ElementType::Hex1 => 88,
        ElementType::Pri1 => 89,
        ElementType::Pri40 => 90,
        ElementType::Pri75 => 91,
        ElementType::Hex64 => 92,
        ElementType::Hex125 => 93,
        ElementType::Hex216 => 94,
        ElementType::Hex343 => 95,
        ElementType::Hex512 => 96,
        ElementType::Hex729 => 97,
        ElementType::Hex1000 => 98,
        ElementType::Hex32 => 99,
        ElementType::Hex44 => 100,
        ElementType::Hex56 => 101,
        ElementType::Hex68 => 102,
        ElementType::Hex80 => 103,
        ElementType::Hex92 => 104,
        ElementType::Hex104 => 105,
        ElementType::Pri126 => 106,
        ElementType::Pri196 => 107,
        ElementType::Pri288 => 108,
        ElementType::Pri405 => 109,
        ElementType::Pri550 => 110,
        ElementType::Pri24 => 111,
        ElementType::Pri33 => 112,
        ElementType::Pri42 => 113,
        ElementType::Pri51 => 114,
        ElementType::Pri60 => 115,
        ElementType::Pri69 => 116,
        ElementType::Pri78 => 117,
        ElementType::Pyr30 => 118,
        ElementType::Pyr55 => 119,
        ElementType::Pyr91 => 120,
        ElementType::Pyr140 => 121,
        ElementType::Pyr204 => 122,
        ElementType::Pyr285 => 123,
        ElementType::Pyr385 => 124,
        ElementType::Pyr21 => 125,
        ElementType::Pyr29 => 126,
        ElementType::Pyr37 => 127,
        ElementType::Pyr45 => 128,
        ElementType::Pyr53 => 129,
        ElementType::Pyr61 => 130,
        ElementType::Pyr69 => 131,
        ElementType::Pyr1 => 132,
        ElementType::PntSub => 133,
        ElementType::LinSub => 134,
        ElementType::TriSub => 135,
        ElementType::TetSub => 136,
        ElementType::Tet16 => 137,
        ElementType::TriMini => 138,
        ElementType::TetMini => 139,
        ElementType::Trih4 => 140,
    }
}

/// The number of nodes of an element of a type, where the type fixes it.
pub open spec fn node_count(t: ElementType) -> Option<usize> {
    match t {
        ElementType::Lin2 => Some(2),
        ElementType::Tri3 => Some(3),
        ElementType::Qua4 => Some(4),
        ElementType::Tet4 => Some(4),
        ElementType::Hex8 => Some(8),
        ElementType::Pri6 => Some(6),
        ElementType::Pyr5 => Some(5),
        ElementType::Lin3 => Some(3),
        ElementType::Tri6 => Some(6),
        ElementType::Qua9 => Some(9),
        ElementType::Tet10 => Some(10),
        ElementType::Hex27 => Some(27),
        ElementType::Pri18 => Some(18),
        ElementType::Pyr14 => Some(14),
        ElementType::Pnt => Some(1),
        ElementType::Qua8 => Some(8),
        ElementType::Hex20 => Some(20),
        ElementType::Pri15 => Some(15),
        ElementType::Pyr13 => Some(13),
        ElementType::Tri9 => Some(9),
        ElementType::Tri10 => Some(10),
        ElementType::Tri12 => Some(12),
        ElementType::Tri15 => Some(15),
        ElementType::Tri15i => Some(15),
        ElementType::Tri21 => Some(21),
        ElementType::Lin4 => Some(4),
        ElementType::Lin5 => Some(5),
        ElementType::Lin6 => Some(6),
        ElementType::Tet20 => Some(20),
        ElementType::Tet35 => Some(35),
        ElementType::Tet56 => Some(56),
        ElementType::Tet22 => Some(22),
        ElementType::Tet28 => Some(28),
        ElementType::Polyg => None,
        ElementType::Polyh => None,
        ElementType::Qua16 => Some(16),
        ElementType::Qua25 => Some(25),
        ElementType::Qua36 => Some(36),
        ElementType::Qua12 => Some(12),
        ElementType::Qua16i => Some(16),
        ElementType::Qua20 => Some(20),
        ElementType::Tri28 => Some(28),
        ElementType::Tri36 => Some(36),
        ElementType::Tri45 => Some(45),
        ElementType::Tri55 => Some(55),
        ElementType::Tri66 => Some(66),
        ElementType::Qua49 => Some(49),
        ElementType::Qua64 => Some(64),
        ElementType::Qua81 => Some(81),
        ElementType::Qua100 => Some(100),
        ElementType::Qua121 => Some(121),
        ElementType::Tri18 => Some(18),
        ElementType::Tri21i => Some(21),
        ElementType::Tri24 => Some(24),
        ElementType::Tri27 => Some(27),
        ElementType::Tri30 => Some(30),
        ElementType::Qua24 => Some(24),
        ElementType::Qua28 => Some(28),
        ElementType::Qua32 => Some(32),
        ElementType::Qua36i => Some(36),
        ElementType::Qua40 => Some(40),
        ElementType::Lin7 => Some(7),
        ElementType::Lin8 => Some(8),
        ElementType::Lin9 => Some(9),
        ElementType::Lin10 => Some(10),
        ElementType::Lin11 => Some(11),
        ElementType::LinB => None,
        ElementType::TriB => None,
        ElementType::PolygB => None,
        ElementType::LinC => None,
        ElementType::Tet84 => Some(84),
        ElementType::Tet120 => Some(120),
        ElementType::Tet165 => Some(165),
        ElementType::Tet220 => Some(220),
        ElementType::Tet286 => Some(286),
        ElementType::Tet34 => Some(34),
        ElementType::Tet40 => Some(40),
        ElementType::Tet46 => Some(46),
        ElementType::Tet52 => Some(52),
        ElementType::Tet58 => Some(58),
        ElementType::Lin1 => Some(1),
        ElementType::Tri1 => Some(1),
        ElementType::Qua1 => Some(1),
        ElementType::Tet1 => Some(1),
        ElementType::Hex1 => Some(1),
        ElementType::Pri1 => Some(1),
        ElementType::Pri40 => Some(40),
        ElementType::Pri75 => Some(75),
        ElementType::Hex64 => Some(64),
        ElementType::Hex125 => Some(125),
        ElementType::Hex216 => Some(216),
        ElementType::Hex343 => Some(343),
        ElementType::Hex512 => Some(512),
        ElementType::Hex729 => Some(729),
        ElementType::Hex1000 => Some(1000),
        ElementType::Hex32 => Some(32),
        ElementType::Hex44 => Some(44),
        ElementType::Hex56 => Some(56),
        ElementType::Hex68 => Some(68),
        ElementType::Hex80 => Some(80),
        ElementType::Hex92 => Some(92),
        ElementType::Hex104 => Some(104),
        ElementType::Pri126 => Some(126),
        ElementType::Pri196 => Some(196),
        ElementType::Pri288 => Some(288),
        ElementType::Pri405 => Some(405),
        ElementType::Pri550 => Some(550),
        ElementType::Pri24 => Some(24),
        ElementType::Pri33 => Some(33),
        ElementType::Pri42 => Some(42),
        ElementType::Pri51 => Some(51),
        ElementType::Pri60 => Some(60),
        ElementType::Pri69 => Some(69),
        ElementType::Pri78 => Some(78),
        ElementType::Pyr30 => Some(30),
        ElementType::Pyr55 => Some(55),
        ElementType::Pyr91 => Some(91),
        ElementType::Pyr140 => Some(140),
        ElementType::Pyr204 => Some(204),
        ElementType::Pyr285 => Some(285),
        ElementType::Pyr385 => Some(385),
        ElementType::Pyr21 => Some(21),
        ElementType::Pyr29 => Some(29),
        ElementType::Pyr37 => Some(37),
        ElementType::Pyr45 => Some(45),
        ElementType::Pyr53 => Some(53),
        ElementType::Pyr61 => Some(61),
        ElementType::Pyr69 => Some(69),
        ElementType::Pyr1 => Some(1),
        ElementType::PntSub => None,
        ElementType::LinSub => None,
        ElementType::TriSub => None,
        ElementType::TetSub => None,
        ElementType::Tet16 => Some(16),
        ElementType::TriMini => None,
        ElementType::TetMini => None,
        ElementType::Trih4 => None,
    }
}

/// Every element type is the one that its code stands for.
pub proof fn lemma_code_round_trip(t: ElementType)
    ensures
        element_type_of(code_of(t)) == Some(t),
        1 <= code_of(t) <= 140,
{
}

/// A code stands for at most one element type, and only for one with that code.
pub proof fn lemma_type_of_code(code: int)
    ensures
        element_type_of(code) matches Some(t) ==> code_of(t) == code,
{
}

impl ElementType {
    /// Returns the element type that a code of the file format stands for
    pub fn from_i32(code: i32) -> (r: Option<ElementType>)
        ensures
            r == element_type_of(code as int),
    {
        match code {
            1 => Some(ElementType::Lin2),
            2 => Some(ElementType::Tri3),
            3 => Some(ElementType::Qua4),
            4 => Some(ElementType::Tet4),
            5 => Some(ElementType::Hex8),
            6 => Some(ElementType::Pri6),
            7 => Some(ElementType::Pyr5),
            8 => Some(ElementType::Lin3),
            9 => Some(ElementType::Tri6),
            10 => Some(ElementType::Qua9),
            11 => Some(ElementType::Tet10),
            12 => Some(ElementType::Hex27),
            13 => Some(ElementType::Pri18),
            14 => Some(ElementType::Pyr14),
            15 => Some(ElementType::Pnt),
            16 => Some(ElementType::Qua8),
            17 => Some(ElementType::Hex20),
            18 => Some(ElementType::Pri15),
            19 => Some(ElementType::Pyr13),
            20 => Some(ElementType::Tri9),
            21 => Some(ElementType::Tri10),
            22 => Some(ElementType::Tri12),
            23 => Some(ElementType::Tri15),
            24 => Some(ElementType::Tri15i),
            25 => Some(ElementType::Tri21),
            26 => Some(ElementType::Lin4),
            27 => Some(ElementType::Lin5),
            28 => Some(ElementType::Lin6),
            29 => Some(ElementType::Tet20),
            30 => Some(ElementType::Tet35),
            31 => Some(ElementType::Tet56),
            32 => Some(ElementType::Tet22),
            33 => Some(ElementType::Tet28),
            34 => Some(ElementType::Polyg),
            35 => Some(ElementType::Polyh),
            36 => Some(ElementType::Qua16),
            37 => Some(ElementType::Qua25),
            38 => Some(ElementType::Qua36),
            39 => Some(ElementType::Qua12),
            40 => Some(ElementType::Qua16i),
            41 => Some(ElementType::Qua20),
            42 => Some(ElementType::Tri28),
            43 => Some(ElementType::Tri36),
            44 => Some(ElementType::Tri45),
            45 => Some(ElementType::Tri55),
            46 => Some(ElementType::Tri66),
            47 => Some(ElementType::Qua49),
            48 => Some(ElementType::Qua64),
            49 => Some(ElementType::Qua81),
            50 => Some(ElementType::Qua100),
            51 => Some(ElementType::Qua121),
            52 => Some(ElementType::Tri18),
            53 => Some(ElementType::Tri21i),
            54 => Some(ElementType::Tri24),
            55 => Some(ElementType::Tri27),
            56 => Some(ElementType::Tri30),
            57 => Some(ElementType::Qua24),
            58 => Some(ElementType::Qua28),
            59 => Some(ElementType::Qua32),
            60 => Some(ElementType::Qua36i),
            61 => Some(ElementType::Qua40),
            62 => Some(ElementType::Lin7),
            63 => Some(ElementType::Lin8),
            64 => Some(ElementType::Lin9),
            65 => Some(ElementType::Lin10),
            66 => Some(ElementType::Lin11),
            67 => Some(ElementType::LinB),
            68 => Some(ElementType::TriB),
            69 => Some(ElementType::PolygB),
            70 => Some(ElementType::LinC),
            71 => Some(ElementType::Tet84),
            72 => Some(ElementType::Tet120),
            73 => Some(ElementType::Tet165),
            74 => Some(ElementType::Tet220),
            75 => Some(ElementType::Tet286),
            79 => Some(ElementType::Tet34),
            80 => Some(ElementType::Tet40),
            81 => Some(ElementType::Tet46),
            82 => Some(ElementType::Tet52),
            83 => Some(ElementType::Tet58),
            84 => Some(ElementType::Lin1),
            85 => Some(ElementType::Tri1),
            86 => Some(ElementType::Qua1),
            87 => Some(ElementType::Tet1),
            88 => Some(ElementType::Hex1),
            89 => Some(ElementType::Pri1),
            90 => Some(ElementType::Pri40),
            91 => Some(ElementType::Pri75),
            92 => Some(ElementType::Hex64),
            93 => Some(ElementType::Hex125),
            94 => Some(ElementType::Hex216),
            95 => Some(ElementType::Hex343),
            96 => Some(ElementType::Hex512),
            97 => Some(ElementType::Hex729),
            98 => Some(ElementType::Hex1000),
            99 => Some(ElementType::Hex32),
            100 => Some(ElementType::Hex44),
            101 => Some(ElementType::Hex56),
            102 => Some(ElementType::Hex68),
            103 => Some(ElementType::Hex80),
            104 => Some(ElementType::Hex92),
            105 => Some(ElementType::Hex104),
            106 => Some(ElementType::Pri126),
            107 => Some(ElementType::Pri196),
            108 => Some(ElementType::Pri288),
            109 => Some(ElementType::Pri405),
            110 => Some(ElementType::Pri550),
            111 => Some(ElementType::Pri24),
            112 => Some(ElementType::Pri33),
            113 => Some(ElementType::Pri42),
            114 => Some(ElementType::Pri51),
            115 => Some(ElementType::Pri60),
            116 => Some(ElementType::Pri69),
            117 => Some(ElementType::Pri78),
            118 => Some(ElementType::Pyr30),
            119 => Some(ElementType::Pyr55),
            120 => Some(ElementType::Pyr91),
            121 => Some(ElementType::Pyr140),
            122 => Some(ElementType::Pyr204),
            123 => Some(ElementType::Pyr285),
            124 => Some(ElementType::Pyr385),
            125 => Some(ElementType::Pyr21),
            126 => Some(ElementType::Pyr29),
            127 => Some(ElementType::Pyr37),
            128 => Some(ElementType::Pyr45),
            129 => Some(ElementType::Pyr53),
            130 => Some(ElementType::Pyr61),
            131 => Some(ElementType::Pyr69),
            132 => Some(ElementType::Pyr1),
            133 => Some(ElementType::PntSub),
            134 => Some(ElementType::LinSub),
            135 => Some(ElementType::TriSub),
            136 => Some(ElementType::TetSub),
            137 => Some(ElementType::Tet16),
            138 => Some(ElementType::TriMini),
            139 => Some(ElementType::TetMini),
            140 => Some(ElementType::Trih4),
            _ => None,
        }
    }

    /// Returns the code that stands for this element type in the file format
    pub fn code(&self) -> (c: i32)
        ensures
            c == code_of(*self),
    {
        match self {
            ElementType::Lin2 => 1,
            ElementType::Tri3 => 2,
            ElementType::Qua4 => 3,
            ElementType::Tet4 => 4,
            ElementType::Hex8 => 5,
            ElementType::Pri6 => 6,
            ElementType::Pyr5 => 7,
            ElementType::Lin3 => 8,
            ElementType::Tri6 => 9,
            ElementType::Qua9 => 10,
            ElementType::Tet10 => 11,
            ElementType::Hex27 => 12,
            ElementType::Pri18 => 13,
            ElementType::Pyr14 => 14,
            ElementType::Pnt => 15,
            ElementType::Qua8 => 16,
            ElementType::Hex20 => 17,
            ElementType::Pri15 => 18,
            ElementType::Pyr13 => 19,
            ElementType::Tri9 => 20,
            ElementType::Tri10 => 21,
            ElementType::Tri12 => 22,
            ElementType::Tri15 => 23,
            ElementType::Tri15i => 24,
            ElementType::Tri21 => 25,
            ElementType::Lin4 => 26,
            ElementType::Lin5 => 27,
            ElementType::Lin6 => 28,
            ElementType::Tet20 => 29,
            ElementType::Tet35 => 30,
            ElementType::Tet56 => 31,
            ElementType::Tet22 => 32,
            ElementType::Tet28 => 33,
            ElementType::Polyg => 34,
            ElementType::Polyh => 35,
            ElementType::Qua16 => 36,
            ElementType::Qua25 => 37,
            ElementType::Qua36 => 38,
            ElementType::Qua12 => 39,
            ElementType::Qua16i => 40,
            ElementType::Qua20 => 41,
            ElementType::Tri28 => 42,
            ElementType::Tri36 => 43,
            ElementType::Tri45 => 44,
            ElementType::Tri55 => 45,
            ElementType::Tri66 => 46,
            ElementType::Qua49 => 47,
            ElementType::Qua64 => 48,
            ElementType::Qua81 => 49,
            ElementType::Qua100 => 50,
            ElementType::Qua121 => 51,
            ElementType::Tri18 => 52,
            ElementType::Tri21i => 53,
            ElementType::Tri24 => 54,
            ElementType::Tri27 => 55,
            ElementType::Tri30 => 56,
            ElementType::Qua24 => 57,
            ElementType::Qua28 => 58,
            ElementType::Qua32 => 59,
            ElementType::Qua36i => 60,
            ElementType::Qua40 => 61,
            ElementType::Lin7 => 62,
            ElementType::Lin8 => 63,
            ElementType::Lin9 => 64,
            ElementType::Lin10 => 65,
            ElementType::Lin11 => 66,
            ElementType::LinB => 67,
            ElementType::TriB => 68,
            ElementType::PolygB => 69,
            ElementType::LinC => 70,
            ElementType::Tet84 => 71,
            ElementType::Tet120 => 72,
            ElementType::Tet165 => 73,
            ElementType::Tet220 => 74,
            ElementType::Tet286 => 75,
            ElementType::Tet34 => 79,
            ElementType::Tet40 => 80,
            ElementType::Tet46 => 81,
            ElementType::Tet52 => 82,
            ElementType::Tet58 => 83,
            ElementType::Lin1 => 84,
            ElementType::Tri1 => 85,
            ElementType::Qua1 => 86,
            ElementType::Tet1 => 87,
            ElementType::Hex1 => 88,
            ElementType::Pri1 => 89,
            ElementType::Pri40 => 90,
            ElementType::Pri75 => 91,
            ElementType::Hex64 => 92,
            ElementType::Hex125 => 93,
            ElementType::Hex216 => 94,
            ElementType::Hex343 => 95,
            ElementType::Hex512 => 96,
            ElementType::Hex729 => 97,
            ElementType::Hex1000 => 98,
            ElementType::Hex32 => 99,
            ElementType::Hex44 => 100,
            ElementType::Hex56 => 101,
            ElementType::Hex68 => 102,
            ElementType::Hex80 => 103,
            ElementType::Hex92 => 104,
            ElementType::Hex104 => 105,
            ElementType::Pri126 => 106,
            ElementType::Pri196 => 107,
            ElementType::Pri288 => 108,
            ElementType::Pri405 => 109,
            ElementType::Pri550 => 110,
            ElementType::Pri24 => 111,
            ElementType::Pri33 => 112,
            ElementType::Pri42 => 113,
            ElementType::Pri51 => 114,
            ElementType::Pri60 => 115,
            ElementType::Pri69 => 116,
            ElementType::Pri78 => 117,
            ElementType::Pyr30 => 118,
            ElementType::Pyr55 => 119,
            ElementType::Pyr91 => 120,
            ElementType::Pyr140 => 121,
            ElementType::Pyr204 => 122,
            ElementType::Pyr285 => 123,
            ElementType::Pyr385 => 124,
            ElementType::Pyr21 => 125,
            ElementType::Pyr29 => 126,
            ElementType::Pyr37 => 127,
            ElementType::Pyr45 => 128,
            ElementType::Pyr53 => 129,
            ElementType::Pyr61 => 130,
            ElementType::Pyr69 => 131,
            ElementType::Pyr1 => 132,
            ElementType::PntSub => 133,
            ElementType::LinSub => 134,
            ElementType::TriSub => 135,
            ElementType::TetSub => 136,
            ElementType::Tet16 => 137,
            ElementType::TriMini => 138,
            ElementType::TetMini => 139,
            ElementType::Trih4 => 140,
        }
    }

    /// Returns the number of nodes per element of an element type
    pub fn nodes(&self) -> (r: Result<usize, ()>)
        ensures
            match r {
                Ok(n) => node_count(*self) == Some(n),
                Err(_) => node_count(*self) is None,
            },
    {
        match self {
            ElementType::Lin2 => Ok(2),
            ElementType::Tri3 => Ok(3),
            ElementType::Qua4 => Ok(4),
            ElementType::Tet4 => Ok(4),
            ElementType::Hex8 => Ok(8),
            ElementType::Pri6 => Ok(6),
            ElementType::Pyr5 => Ok(5),
            ElementType::Lin3 => Ok(3),
            ElementType::Tri6 => Ok(6),
            ElementType::Qua9 => Ok(9),
            ElementType::Tet10 => Ok(10),
            ElementType::Hex27 => Ok(27),
            ElementType::Pri18 => Ok(18),
            ElementType::Pyr14 => Ok(14),
            ElementType::Pnt => Ok(1),
            ElementType::Qua8 => Ok(8),
            ElementType::Hex20 => Ok(20),
            ElementType::Pri15 => Ok(15),
            ElementType::Pyr13 => Ok(13),
            ElementType::Tri9 => Ok(9),
            ElementType::Tri10 => Ok(10),
            ElementType::Tri12 => Ok(12),
            ElementType::Tri15 => Ok(15),
            ElementType::Tri15i => Ok(15),
            ElementType::Tri21 => Ok(21),
            ElementType::Lin4 => Ok(4),
            ElementType::Lin5 => Ok(5),
            ElementType::Lin6 => Ok(6),
            ElementType::Tet20 => Ok(20),
            ElementType::Tet35 => Ok(35),
            ElementType::Tet56 => Ok(56),
            ElementType::Tet22 => Ok(22),
            ElementType::Tet28 => Ok(28),
            ElementType::Polyg => Err(()),
            ElementType::Polyh => Err(()),
            ElementType::Qua16 => Ok(16),
            ElementType::Qua25 => Ok(25),
            ElementType::Qua36 => Ok(36),
            ElementType::Qua12 => Ok(12),
            ElementType::Qua16i => Ok(16),
            ElementType::Qua20 => Ok(20),
            ElementType::Tri28 => Ok(28),
            ElementType::Tri36 => Ok(36),
            ElementType::Tri45 => Ok(45),
            ElementType::Tri55 => Ok(55),
            ElementType::Tri66 => Ok(66),
            ElementType::Qua49 => Ok(49),
            ElementType::Qua64 => Ok(64),
            ElementType::Qua81 => Ok(81),
            ElementType::Qua100 => Ok(100),
            ElementType::Qua121 => Ok(121),
            ElementType::Tri18 => Ok(18),
            ElementType::Tri21i => Ok(21),
            ElementType::Tri24 => Ok(24),
            ElementType::Tri27 => Ok(27),
            ElementType::Tri30 => Ok(30),
            ElementType::Qua24 => Ok(24),
            ElementType::Qua28 => Ok(28),
            ElementType::Qua32 => Ok(32),
            ElementType::Qua36i => Ok(36),
            ElementType::Qua40 => Ok(40),
            ElementType::Lin7 => Ok(7),
            ElementType::Lin8 => Ok(8),
            ElementType::Lin9 => Ok(9),
            ElementType::Lin10 => Ok(10),
            ElementType::Lin11 => Ok(11),
            ElementType::LinB => Err(()),
            ElementType::TriB => Err(()),
            ElementType::PolygB => Err(()),
            ElementType::LinC => Err(()),
            ElementType::Tet84 => Ok(84),
            ElementType::Tet120 => Ok(120),
            ElementType::Tet165 => Ok(165),
            ElementType::Tet220 => Ok(220),
            ElementType::Tet286 => Ok(286),
            ElementType::Tet34 => Ok(34),
            ElementType::Tet40 => Ok(40),
            ElementType::Tet46 => Ok(46),
            ElementType::Tet52 => Ok(52),
            ElementType::Tet58 => Ok(58),
            ElementType::Lin1 => Ok(1),
            ElementType::Tri1 => Ok(1),
            ElementType::Qua1 => Ok(1),
            ElementType::Tet1 => Ok(1),
            ElementType::Hex1 => Ok(1),
            ElementType::Pri1 => Ok(1),
            ElementType::Pri40 => Ok(40),
            ElementType::Pri75 => Ok(75),
            ElementType::Hex64 => Ok(64),
            ElementType::Hex125 => Ok(125),
            ElementType::Hex216 => Ok(216),
            ElementType::Hex343 => Ok(343),
            ElementType::Hex512 => Ok(512),
            ElementType::Hex729 => Ok(729),
            ElementType::Hex1000 => Ok(1000),
            ElementType::Hex32 => Ok(32),
            ElementType::Hex44 => Ok(44),
            ElementType::Hex56 => Ok(56),
            ElementType::Hex68 => Ok(68),
            ElementType::Hex80 => Ok(80),
            ElementType::Hex92 => Ok(92),
            ElementType::Hex104 => Ok(104),
            ElementType::Pri126 => Ok(126),
            ElementType::Pri196 => Ok(196),
            ElementType::Pri288 => Ok(288),
            ElementType::Pri405 => Ok(405),
            ElementType::Pri550 => Ok(550),
            ElementType::Pri24 => Ok(24),
            ElementType::Pri33 => Ok(33),
            ElementType::Pri42 => Ok(42),
            ElementType::Pri51 => Ok(51),
            ElementType::Pri60 => Ok(60),
            ElementType::Pri69 => Ok(69),
            ElementType::Pri78 => Ok(78),
            ElementType::Pyr30 => Ok(30),
            ElementType::Pyr55 => Ok(55),
            ElementType::Pyr91 => Ok(91),
            ElementType::Pyr140 => Ok(140),
            ElementType::Pyr204 => Ok(204),
            ElementType::Pyr285 => Ok(285),
            ElementType::Pyr385 => Ok(385),
            ElementType::Pyr21 => Ok(21),
            ElementType::Pyr29 => Ok(29),
            ElementType::Pyr37 => Ok(37),
            ElementType::Pyr45 => Ok(45),
            ElementType::Pyr53 => Ok(53),
            ElementType::Pyr61 => Ok(61),
            ElementType::Pyr69 => Ok(69),
            ElementType::Pyr1 => Ok(1),
            ElementType::PntSub => Err(()),
            ElementType::LinSub => Err(()),
            ElementType::TriSub => Err(()),
            ElementType::TetSub => Err(()),
            ElementType::Tet16 => Ok(16),
            ElementType::TriMini => Err(()),
            ElementType::TetMini => Err(()),
            ElementType::Trih4 => Err(()),
        }
    }
}

} // verus!
