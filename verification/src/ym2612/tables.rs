//! Lookup tables of the YM2612.
use vstd::prelude::*;

verus! {

/// Quarter-wave log-sine table: entry `i` is `-log2(sin((i + 0.5) * pi / 512)) *
/// 256`, rounded. Four mirrored copies make the full wave.
pub const SIN_TABLE: [u16; 256] = [
    2137, 1731, 1543, 1419, 1326, 1252, 1190, 1137, 1091, 1050, 1013, 979,
    949, 920, 894, 869, 846, 825, 804, 785, 767, 749, 732, 717,
    701, 687, 672, 659, 646, 633, 621, 609, 598, 587, 576, 566,
    556, 546, 536, 527, 518, 509, 501, 492, 484, 476, 468, 461,
    453, 446, 439, 432, 425, 418, 411, 405, 399, 392, 386, 380,
    375, 369, 363, 358, 352, 347, 341, 336, 331, 326, 321, 316,
    311, 307, 302, 297, 293, 289, 284, 280, 276, 271, 267, 263,
    259, 255, 251, 248, 244, 240, 236, 233, 229, 226, 222, 219,
    215, 212, 209, 205, 202, 199, 196, 193, 190, 187, 184, 181,
    178, 175, 172, 169, 167, 164, 161, 159, 156, 153, 151, 148,
    146, 143, 141, 138, 136, 134, 131, 129, 127, 125, 122, 120,
    118, 116, 114, 112, 110, 108, 106, 104, 102, 100, 98, 96,
    94, 92, 91, 89, 87, 85, 83, 82, 80, 78, 77, 75,
    74, 72, 70, 69, 67, 66, 64, 63, 62, 60, 59, 57,
    56, 55, 53, 52, 51, 49, 48, 47, 46, 45, 43, 42,
    41, 40, 39, 38, 37, 36, 35, 34, 33, 32, 31, 30,
    29, 28, 27, 26, 25, 24, 23, 23, 22, 21, 20, 20,
    19, 18, 17, 17, 16, 15, 15, 14, 13, 13, 12, 12,
    11, 10, 10, 9, 9, 8, 8, 7, 7, 7, 6, 6,
    5, 5, 5, 4, 4, 4, 3, 3, 3, 2, 2, 2,
    2, 1, 1, 1, 1, 1, 1, 1, 0, 0, 0, 0,
    0, 0, 0, 0,
];

/// Exponential table: entry `i` is `2^((255 - i) / 256) * 1024`, rounded.
pub const EXP_TABLE: [u16; 256] = [
    2042, 2037, 2031, 2026, 2020, 2015, 2010, 2004, 1999, 1993, 1988, 1983,
    1977, 1972, 1966, 1961, 1956, 1951, 1945, 1940, 1935, 1930, 1924, 1919,
    1914, 1909, 1904, 1898, 1893, 1888, 1883, 1878, 1873, 1868, 1863, 1858,
    1853, 1848, 1843, 1838, 1833, 1828, 1823, 1818, 1813, 1808, 1803, 1798,
    1794, 1789, 1784, 1779, 1774, 1769, 1765, 1760, 1755, 1750, 1746, 1741,
    1736, 1732, 1727, 1722, 1717, 1713, 1708, 1704, 1699, 1694, 1690, 1685,
    1681, 1676, 1672, 1667, 1663, 1658, 1654, 1649, 1645, 1640, 1636, 1631,
    1627, 1623, 1618, 1614, 1609, 1605, 1601, 1596, 1592, 1588, 1584, 1579,
    1575, 1571, 1566, 1562, 1558, 1554, 1550, 1545, 1541, 1537, 1533, 1529,
    1525, 1520, 1516, 1512, 1508, 1504, 1500, 1496, 1492, 1488, 1484, 1480,
    1476, 1472, 1468, 1464, 1460, 1456, 1452, 1448, 1444, 1440, 1436, 1433,
    1429, 1425, 1421, 1417, 1413, 1409, 1406, 1402, 1398, 1394, 1391, 1387,
    1383, 1379, 1376, 1372, 1368, 1364, 1361, 1357, 1353, 1350, 1346, 1342,
    1339, 1335, 1332, 1328, 1324, 1321, 1317, 1314, 1310, 1307, 1303, 1300,
    1296, 1292, 1289, 1286, 1282, 1279, 1275, 1272, 1268, 1265, 1261, 1258,
    1255, 1251, 1248, 1244, 1241, 1238, 1234, 1231, 1228, 1224, 1221, 1218,
    1214, 1211, 1208, 1205, 1201, 1198, 1195, 1192, 1188, 1185, 1182, 1179,
    1176, 1172, 1169, 1166, 1163, 1160, 1157, 1154, 1150, 1147, 1144, 1141,
    1138, 1135, 1132, 1129, 1126, 1123, 1120, 1117, 1114, 1111, 1108, 1105,
    1102, 1099, 1096, 1093, 1090, 1087, 1084, 1081, 1078, 1075, 1072, 1069,
    1066, 1064, 1061, 1058, 1055, 1052, 1049, 1046, 1044, 1041, 1038, 1035,
    1032, 1030, 1027, 1024,
];

/// Detune offsets, 32 per detune magnitude (0 to 3), one per key code.
pub const DETUNE_TABLE: [u8; 128] = [
    0, 0, 0, 0, 0, 0, 0, 0, 0, 0, 0, 0, 0, 0, 0, 0,
    0, 0, 0, 0, 0, 0, 0, 0, 0, 0, 0, 0, 0, 0, 0, 0,
    0, 0, 0, 0, 1, 1, 1, 1, 1, 1, 1, 1, 2, 2, 2, 2,
    2, 3, 3, 3, 4, 4, 4, 5, 5, 6, 6, 7, 8, 8, 8, 8,
    1, 1, 1, 1, 2, 2, 2, 2, 2, 3, 3, 3, 4, 4, 4, 5,
    5, 6, 6, 7, 8, 8, 9, 10, 11, 12, 13, 14, 16, 16, 16, 16,
    2, 2, 2, 2, 2, 3, 3, 3, 4, 4, 4, 5, 5, 6, 6, 7,
    8, 8, 9, 10, 11, 12, 13, 14, 16, 17, 19, 20, 22, 22, 22, 22,
];

/// First vibrato shift, eight per sensitivity (0 to 7), one per LFO level.
pub const PM_SHIFT_1: [u8; 64] = [
    7, 7, 7, 7, 7, 7, 7, 7,
    7, 7, 7, 7, 7, 7, 7, 7,
    7, 7, 7, 7, 7, 7, 1, 1,
    7, 7, 7, 7, 1, 1, 1, 1,
    7, 7, 7, 1, 1, 1, 1, 0,
    7, 7, 1, 1, 0, 0, 0, 0,
    7, 7, 1, 1, 0, 0, 0, 0,
    7, 7, 1, 1, 0, 0, 0, 0,
];

/// Second vibrato shift, laid out like the first.
pub const PM_SHIFT_2: [u8; 64] = [
    7, 7, 7, 7, 7, 7, 7, 7,
    7, 7, 7, 7, 2, 2, 2, 2,
    7, 7, 7, 2, 2, 2, 7, 7,
    7, 7, 2, 2, 7, 7, 2, 2,
    7, 7, 2, 7, 7, 7, 2, 7,
    7, 7, 7, 2, 7, 7, 2, 1,
    7, 7, 7, 2, 7, 7, 2, 1,
    7, 7, 7, 2, 7, 7, 2, 1,
];

/// Envelope increments, eight per pattern row. Rows 0 to 3 serve rates below 48
/// by the two low rate bits, rows 4 to 15 the rates 48 to 59, row 16 the rest.
pub const EG_INC: [u8; 136] = [
    0, 1, 0, 1, 0, 1, 0, 1,
    0, 1, 0, 1, 1, 1, 0, 1,
    0, 1, 1, 1, 0, 1, 1, 1,
    0, 1, 1, 1, 1, 1, 1, 1,
    1, 1, 1, 1, 1, 1, 1, 1,
    1, 1, 1, 2, 1, 1, 1, 2,
    1, 2, 1, 2, 1, 2, 1, 2,
    1, 2, 2, 2, 1, 2, 2, 2,
    2, 2, 2, 2, 2, 2, 2, 2,
    2, 2, 2, 4, 2, 2, 2, 4,
    2, 4, 2, 4, 2, 4, 2, 4,
    2, 4, 4, 4, 2, 4, 4, 4,
    4, 4, 4, 4, 4, 4, 4, 4,
    4, 4, 4, 8, 4, 4, 4, 8,
    4, 8, 4, 8, 4, 8, 4, 8,
    4, 8, 8, 8, 4, 8, 8, 8,
    8, 8, 8, 8, 8, 8, 8, 8,
];

} // verus!
