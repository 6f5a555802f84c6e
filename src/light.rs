use vstd::prelude::*;

verus! {

/// `x` to the fifth power.
pub open spec fn pow5(x: int) -> int {
    x * x * x * x * x
}

/// `x` to the twelfth power.
pub open spec fn pow12(x: int) -> int {
    let x3 = x * x * x;
    x3 * x3 * x3 * x3
}

/// `y` is the linear light of sRGB level `level` (of 256), in units of 2^-24,
/// rounded down. With `x = level / 256`: below `x = 0.04045` it is
/// `floor(2^24 * x / 12.92)`; from there on, `floor(2^24 * ((x + 0.055) / 1.055)^2.4)`,
/// where `(x + 0.055) / 1.055 = (100 * level + 1408) / 27008` and the power 12/5 is
/// compared through fifth and twelfth powers, with denominators cleared.
pub open spec fn is_linear_light(level: int, y: int) -> bool {
    if level <= 10 {
        y * 1292 <= 6553600 * level < (y + 1) * 1292
    } else {
        pow5(y) * pow12(27008) <= pow12(1024)
            * pow12(100 * level + 1408) < pow5(y + 1) * pow12(27008)
    }
}

/// Linear-light intensity of the sRGB level `level / 256`, in units of 2^-24,
/// rounded down, as a table: `lemma_table_is_linear_light` proves each entry
/// against `is_linear_light`.
pub open spec fn linear_light_spec(level: u8) -> int {
    match level {
        0u8 => 0,
        1u8 => 5072,
        2u8 => 10144,
        3u8 => 15217,
        4u8 => 20289,
        5u8 => 25362,
        6u8 => 30434,
        7u8 => 35507,
        8u8 => 40579,
        9u8 => 45652,
        10u8 => 50724,
        11u8 => 55914,
        12u8 => 61415,
        13u8 => 67219,
        14u8 => 73331,
        15u8 => 79756,
        16u8 => 86497,
        17u8 => 93560,
        18u8 => 100948,
        19u8 => 108666,
        20u8 => 116717,
        21u8 => 125106,
        22u8 => 133837,
        23u8 => 142913,
        24u8 => 152338,
        25u8 => 162117,
        26u8 => 172252,
        27u8 => 182747,
        28u8 => 193606,
        29u8 => 204832,
        30u8 => 216430,
        31u8 => 228401,
        32u8 => 240750,
        33u8 => 253481,
        34u8 => 266595,
        35u8 => 280097,
        36u8 => 293989,
        37u8 => 308276,
        38u8 => 322959,
        39u8 => 338043,
        40u8 => 353529,
        41u8 => 369422,
        42u8 => 385724,
        43u8 => 402438,
        44u8 => 419567,
        45u8 => 437114,
        46u8 => 455082,
        47u8 => 473473,
        48u8 => 492291,
        49u8 => 511538,
        50u8 => 531217,
        51u8 => 551330,
        52u8 => 571881,
        53u8 => 592872,
        54u8 => 614306,
        55u8 => 636185,
        56u8 => 658512,
        57u8 => 681289,
        58u8 => 704520,
        59u8 => 728206,
        60u8 => 752350,
        61u8 => 776955,
        62u8 => 802023,
        63u8 => 827557,
        64u8 => 853559,
        65u8 => 880031,
        66u8 => 906976,
        67u8 => 934396,
        68u8 => 962293,
        69u8 => 990671,
        70u8 => 1019531,
        71u8 => 1048875,
        72u8 => 1078706,
        73u8 => 1109027,
        74u8 => 1139839,
        75u8 => 1171144,
        76u8 => 1202946,
        77u8 => 1235245,
        78u8 => 1268045,
        79u8 => 1301347,
        80u8 => 1335154,
        81u8 => 1369468,
        82u8 => 1404291,
        83u8 => 1439625,
        84u8 => 1475472,
        85u8 => 1511835,
        86u8 => 1548715,
        87u8 => 1586114,
        88u8 => 1624036,
        89u8 => 1662480,
        90u8 => 1701451,
        91u8 => 1740949,
        92u8 => 1780977,
        93u8 => 1821537,
        94u8 => 1862631,
        95u8 => 1904260,
        96u8 => 1946427,
        97u8 => 1989134,
        98u8 => 2032383,
        99u8 => 2076175,
        100u8 => 2120512,
        101u8 => 2165397,
        102u8 => 2210832,
        103u8 => 2256818,
        104u8 => 2303357,
        105u8 => 2350451,
        106u8 => 2398102,
        107u8 => 2446312,
        108u8 => 2495082,
        109u8 => 2544415,
        110u8 => 2594312,
        111u8 => 2644776,
        112u8 => 2695807,
        113u8 => 2747409,
        114u8 => 2799582,
        115u8 => 2852328,
        116u8 => 2905650,
        117u8 => 2959548,
        118u8 => 3014026,
        119u8 => 3069084,
        120u8 => 3124724,
        121u8 => 3180948,
        122u8 => 3237758,
        123u8 => 3295155,
        124u8 => 3353141,
        125u8 => 3411719,
        126u8 => 3470889,
        127u8 => 3530653,
        128u8 => 3591014,
        129u8 => 3651972,
        130u8 => 3713530,
        131u8 => 3775688,
        132u8 => 3838450,
        133u8 => 3901815,
        134u8 => 3965787,
        135u8 => 4030367,
        136u8 => 4095555,
        137u8 => 4161355,
        138u8 => 4227767,
        139u8 => 4294794,
        140u8 => 4362436,
        141u8 => 4430696,
        142u8 => 4499574,
        143u8 => 4569074,
        144u8 => 4639195,
        145u8 => 4709941,
        146u8 => 4781311,
        147u8 => 4853309,
        148u8 => 4925935,
        149u8 => 4999191,
        150u8 => 5073079,
        151u8 => 5147599,
        152u8 => 5222755,
        153u8 => 5298547,
        154u8 => 5374976,
        155u8 => 5452045,
        156u8 => 5529754,
        157u8 => 5608106,
        158u8 => 5687102,
        159u8 => 5766743,
        160u8 => 5847030,
        161u8 => 5927966,
        162u8 => 6009552,
        163u8 => 6091789,
        164u8 => 6174679,
        165u8 => 6258223,
        166u8 => 6342423,
        167u8 => 6427280,
        168u8 => 6512795,
        169u8 => 6598971,
        170u8 => 6685808,
        171u8 => 6773308,
        172u8 => 6861472,
        173u8 => 6950303,
        174u8 => 7039800,
        175u8 => 7129966,
        176u8 => 7220802,
        177u8 => 7312310,
        178u8 => 7404491,
        179u8 => 7497346,
        180u8 => 7590877,
        181u8 => 7685084,
        182u8 => 7779971,
        183u8 => 7875537,
        184u8 => 7971785,
        185u8 => 8068715,
        186u8 => 8166329,
        187u8 => 8264629,
        188u8 => 8363615,
        189u8 => 8463290,
        190u8 => 8563654,
        191u8 => 8664709,
        192u8 => 8766456,
        193u8 => 8868897,
        194u8 => 8972033,
        195u8 => 9075865,
        196u8 => 9180395,
        197u8 => 9285623,
        198u8 => 9391552,
        199u8 => 9498182,
        200u8 => 9605516,
        201u8 => 9713553,
        202u8 => 9822296,
        203u8 => 9931746,
        204u8 => 10041904,
        205u8 => 10152772,
        206u8 => 10264350,
        207u8 => 10376640,
        208u8 => 10489644,
        209u8 => 10603362,
        210u8 => 10717796,
        211u8 => 10832947,
        212u8 => 10948817,
        213u8 => 11065407,
        214u8 => 11182717,
        215u8 => 11300750,
        216u8 => 11419507,
        217u8 => 11538988,
        218u8 => 11659195,
        219u8 => 11780130,
        220u8 => 11901793,
        221u8 => 12024186,
        222u8 => 12147310,
        223u8 => 12271167,
        224u8 => 12395757,
        225u8 => 12521082,
        226u8 => 12647143,
        227u8 => 12773941,
        228u8 => 12901477,
        229u8 => 13029754,
        230u8 => 13158771,
        231u8 => 13288530,
        232u8 => 13419033,
        233u8 => 13550280,
        234u8 => 13682274,
        235u8 => 13815014,
        236u8 => 13948502,
        237u8 => 14082740,
        238u8 => 14217728,
        239u8 => 14353468,
        240u8 => 14489961,
        241u8 => 14627208,
        242u8 => 14765211,
        243u8 => 14903970,
        244u8 => 15043487,
        245u8 => 15183762,
        246u8 => 15324798,
        247u8 => 15466595,
        248u8 => 15609154,
        249u8 => 15752477,
        250u8 => 15896565,
        251u8 => 16041419,
        252u8 => 16187039,
        253u8 => 16333428,
        254u8 => 16480586,
        255u8 => 16628515,
    }
}

/// Every entry of the table is the rounded-down linear light of its level.
pub proof fn lemma_table_is_linear_light(level: u8)
    ensures
        is_linear_light(level as int, linear_light_spec(level)),
{
    match level {
        0u8 => {
            assert(is_linear_light(0, 0)) by (nonlinear_arith);
        },
        1u8 => {
            assert(is_linear_light(1, 5072)) by (nonlinear_arith);
        },
        2u8 => {
            assert(is_linear_light(2, 10144)) by (nonlinear_arith);
        },
        3u8 => {
            assert(is_linear_light(3, 15217)) by (nonlinear_arith);
        },
        4u8 => {
            assert(is_linear_light(4, 20289)) by (nonlinear_arith);
        },
        5u8 => {
            assert(is_linear_light(5, 25362)) by (nonlinear_arith);
        },
        6u8 => {
            assert(is_linear_light(6, 30434)) by (nonlinear_arith);
        },
        7u8 => {
            assert(is_linear_light(7, 35507)) by (nonlinear_arith);
        },
        8u8 => {
            assert(is_linear_light(8, 40579)) by (nonlinear_arith);
        },
        9u8 => {
            assert(is_linear_light(9, 45652)) by (nonlinear_arith);
        },
        10u8 => {
            assert(is_linear_light(10, 50724)) by (nonlinear_arith);
        },
        11u8 => {
            assert(is_linear_light(11, 55914)) by (nonlinear_arith);
        },
        12u8 => {
            assert(is_linear_light(12, 61415)) by (nonlinear_arith);
        },
        13u8 => {
            assert(is_linear_light(13, 67219)) by (nonlinear_arith);
        },
        14u8 => {
            assert(is_linear_light(14, 73331)) by (nonlinear_arith);
        },
        15u8 => {
            assert(is_linear_light(15, 79756)) by (nonlinear_arith);
        },
        16u8 => {
            assert(is_linear_light(16, 86497)) by (nonlinear_arith);
        },
        17u8 => {
            assert(is_linear_light(17, 93560)) by (nonlinear_arith);
        },
        18u8 => {
            assert(is_linear_light(18, 100948)) by (nonlinear_arith);
        },
        19u8 => {
            assert(is_linear_light(19, 108666)) by (nonlinear_arith);
        },
        20u8 => {
            assert(is_linear_light(20, 116717)) by (nonlinear_arith);
        },
        21u8 => {
            assert(is_linear_light(21, 125106)) by (nonlinear_arith);
        },
        22u8 => {
            assert(is_linear_light(22, 133837)) by (nonlinear_arith);
        },
        23u8 => {
            assert(is_linear_light(23, 142913)) by (nonlinear_arith);
        },
        24u8 => {
            assert(is_linear_light(24, 152338)) by (nonlinear_arith);
        },
        25u8 => {
            assert(is_linear_light(25, 162117)) by (nonlinear_arith);
        },
        26u8 => {
            assert(is_linear_light(26, 172252)) by (nonlinear_arith);
        },
        27u8 => {
            assert(is_linear_light(27, 182747)) by (nonlinear_arith);
        },
        28u8 => {
            assert(is_linear_light(28, 193606)) by (nonlinear_arith);
        },
        29u8 => {
            assert(is_linear_light(29, 204832)) by (nonlinear_arith);
        },
        30u8 => {
            assert(is_linear_light(30, 216430)) by (nonlinear_arith);
        },
        31u8 => {
            assert(is_linear_light(31, 228401)) by (nonlinear_arith);
        },
        32u8 => {
            assert(is_linear_light(32, 240750)) by (nonlinear_arith);
        },
        33u8 => {
            assert(is_linear_light(33, 253481)) by (nonlinear_arith);
        },
        34u8 => {
            assert(is_linear_light(34, 266595)) by (nonlinear_arith);
        },
        35u8 => {
            assert(is_linear_light(35, 280097)) by (nonlinear_arith);
        },
        36u8 => {
            assert(is_linear_light(36, 293989)) by (nonlinear_arith);
        },
        37u8 => {
            assert(is_linear_light(37, 308276)) by (nonlinear_arith);
        },
        38u8 => {
            assert(is_linear_light(38, 322959)) by (nonlinear_arith);
        },
        39u8 => {
            assert(is_linear_light(39, 338043)) by (nonlinear_arith);
        },
        40u8 => {
            assert(is_linear_light(40, 353529)) by (nonlinear_arith);
        },
        41u8 => {
            assert(is_linear_light(41, 369422)) by (nonlinear_arith);
        },
        42u8 => {
            assert(is_linear_light(42, 385724)) by (nonlinear_arith);
        },
        43u8 => {
            assert(is_linear_light(43, 402438)) by (nonlinear_arith);
        },
        44u8 => {
            assert(is_linear_light(44, 419567)) by (nonlinear_arith);
        },
        45u8 => {
            assert(is_linear_light(45, 437114)) by (nonlinear_arith);
        },
        46u8 => {
            assert(is_linear_light(46, 455082)) by (nonlinear_arith);
        },
        47u8 => {
            assert(is_linear_light(47, 473473)) by (nonlinear_arith);
        },
        48u8 => {
            assert(is_linear_light(48, 492291)) by (nonlinear_arith);
        },
        49u8 => {
            assert(is_linear_light(49, 511538)) by (nonlinear_arith);
        },
        50u8 => {
            assert(is_linear_light(50, 531217)) by (nonlinear_arith);
        },
        51u8 => {
            assert(is_linear_light(51, 551330)) by (nonlinear_arith);
        },
        52u8 => {
            assert(is_linear_light(52, 571881)) by (nonlinear_arith);
        },
        53u8 => {
            assert(is_linear_light(53, 592872)) by (nonlinear_arith);
        },
        54u8 => {
            assert(is_linear_light(54, 614306)) by (nonlinear_arith);
        },
        55u8 => {
            assert(is_linear_light(55, 636185)) by (nonlinear_arith);
        },
        56u8 => {
            assert(is_linear_light(56, 658512)) by (nonlinear_arith);
        },
        57u8 => {
            assert(is_linear_light(57, 681289)) by (nonlinear_arith);
        },
        58u8 => {
            assert(is_linear_light(58, 704520)) by (nonlinear_arith);
        },
        59u8 => {
            assert(is_linear_light(59, 728206)) by (nonlinear_arith);
        },
        60u8 => {
            assert(is_linear_light(60, 752350)) by (nonlinear_arith);
        },
        61u8 => {
            assert(is_linear_light(61, 776955)) by (nonlinear_arith);
        },
        62u8 => {
            assert(is_linear_light(62, 802023)) by (nonlinear_arith);
        },
        63u8 => {
            assert(is_linear_light(63, 827557)) by (nonlinear_arith);
        },
        64u8 => {
            assert(is_linear_light(64, 853559)) by (nonlinear_arith);
        },
        65u8 => {
            assert(is_linear_light(65, 880031)) by (nonlinear_arith);
        },
        66u8 => {
            assert(is_linear_light(66, 906976)) by (nonlinear_arith);
        },
        67u8 => {
            assert(is_linear_light(67, 934396)) by (nonlinear_arith);
        },
        68u8 => {
            assert(is_linear_light(68, 962293)) by (nonlinear_arith);
        },
        69u8 => {
            assert(is_linear_light(69, 990671)) by (nonlinear_arith);
        },
        70u8 => {
            assert(is_linear_light(70, 1019531)) by (nonlinear_arith);
        },
        71u8 => {
            assert(is_linear_light(71, 1048875)) by (nonlinear_arith);
        },
        72u8 => {
            assert(is_linear_light(72, 1078706)) by (nonlinear_arith);
        },
        73u8 => {
            assert(is_linear_light(73, 1109027)) by (nonlinear_arith);
        },
        74u8 => {
            assert(is_linear_light(74, 1139839)) by (nonlinear_arith);
        },
        75u8 => {
            assert(is_linear_light(75, 1171144)) by (nonlinear_arith);
        },
        76u8 => {
            assert(is_linear_light(76, 1202946)) by (nonlinear_arith);
        },
        77u8 => {
            assert(is_linear_light(77, 1235245)) by (nonlinear_arith);
        },
        78u8 => {
            assert(is_linear_light(78, 1268045)) by (nonlinear_arith);
        },
        79u8 => {
            assert(is_linear_light(79, 1301347)) by (nonlinear_arith);
        },
        80u8 => {
            assert(is_linear_light(80, 1335154)) by (nonlinear_arith);
        },
        81u8 => {
            assert(is_linear_light(81, 1369468)) by (nonlinear_arith);
        },
        82u8 => {
            assert(is_linear_light(82, 1404291)) by (nonlinear_arith);
        },
        83u8 => {
            assert(is_linear_light(83, 1439625)) by (nonlinear_arith);
        },
        84u8 => {
            assert(is_linear_light(84, 1475472)) by (nonlinear_arith);
        },
        85u8 => {
            assert(is_linear_light(85, 1511835)) by (nonlinear_arith);
        },
        86u8 => {
            assert(is_linear_light(86, 1548715)) by (nonlinear_arith);
        },
        87u8 => {
            assert(is_linear_light(87, 1586114)) by (nonlinear_arith);
        },
        88u8 => {
            assert(is_linear_light(88, 1624036)) by (nonlinear_arith);
        },
        89u8 => {
            assert(is_linear_light(89, 1662480)) by (nonlinear_arith);
        },
        90u8 => {
            assert(is_linear_light(90, 1701451)) by (nonlinear_arith);
        },
        91u8 => {
            assert(is_linear_light(91, 1740949)) by (nonlinear_arith);
        },
        92u8 => {
            assert(is_linear_light(92, 1780977)) by (nonlinear_arith);
        },
        93u8 => {
            assert(is_linear_light(93, 1821537)) by (nonlinear_arith);
        },
        94u8 => {
            assert(is_linear_light(94, 1862631)) by (nonlinear_arith);
        },
        95u8 => {
            assert(is_linear_light(95, 1904260)) by (nonlinear_arith);
        },
        96u8 => {
            assert(is_linear_light(96, 1946427)) by (nonlinear_arith);
        },
        97u8 => {
            assert(is_linear_light(97, 1989134)) by (nonlinear_arith);
        },
        98u8 => {
            assert(is_linear_light(98, 2032383)) by (nonlinear_arith);
        },
        99u8 => {
            assert(is_linear_light(99, 2076175)) by (nonlinear_arith);
        },
        100u8 => {
            assert(is_linear_light(100, 2120512)) by (nonlinear_arith);
        },
        101u8 => {
            assert(is_linear_light(101, 2165397)) by (nonlinear_arith);
        },
        102u8 => {
            assert(is_linear_light(102, 2210832)) by (nonlinear_arith);
        },
        103u8 => {
            assert(is_linear_light(103, 2256818)) by (nonlinear_arith);
        },
        104u8 => {
            assert(is_linear_light(104, 2303357)) by (nonlinear_arith);
        },
        105u8 => {
            assert(is_linear_light(105, 2350451)) by (nonlinear_arith);
        },
        106u8 => {
            assert(is_linear_light(106, 2398102)) by (nonlinear_arith);
        },
        107u8 => {
            assert(is_linear_light(107, 2446312)) by (nonlinear_arith);
        },
        108u8 => {
            assert(is_linear_light(108, 2495082)) by (nonlinear_arith);
        },
        109u8 => {
            assert(is_linear_light(109, 2544415)) by (nonlinear_arith);
        },
        110u8 => {
            assert(is_linear_light(110, 2594312)) by (nonlinear_arith);
        },
        111u8 => {
            assert(is_linear_light(111, 2644776)) by (nonlinear_arith);
        },
        112u8 => {
            assert(is_linear_light(112, 2695807)) by (nonlinear_arith);
        },
        113u8 => {
            assert(is_linear_light(113, 2747409)) by (nonlinear_arith);
        },
        114u8 => {
            assert(is_linear_light(114, 2799582)) by (nonlinear_arith);
        },
        115u8 => {
            assert(is_linear_light(115, 2852328)) by (nonlinear_arith);
        },
        116u8 => {
            assert(is_linear_light(116, 2905650)) by (nonlinear_arith);
        },
        117u8 => {
            assert(is_linear_light(117, 2959548)) by (nonlinear_arith);
        },
        118u8 => {
            assert(is_linear_light(118, 3014026)) by (nonlinear_arith);
        },
        119u8 => {
            assert(is_linear_light(119, 3069084)) by (nonlinear_arith);
        },
        120u8 => {
            assert(is_linear_light(120, 3124724)) by (nonlinear_arith);
        },
        121u8 => {
            assert(is_linear_light(121, 3180948)) by (nonlinear_arith);
        },
        122u8 => {
            assert(is_linear_light(122, 3237758)) by (nonlinear_arith);
        },
        123u8 => {
            assert(is_linear_light(123, 3295155)) by (nonlinear_arith);
        },
        124u8 => {
            assert(is_linear_light(124, 3353141)) by (nonlinear_arith);
        },
        125u8 => {
            assert(is_linear_light(125, 3411719)) by (nonlinear_arith);
        },
        126u8 => {
            assert(is_linear_light(126, 3470889)) by (nonlinear_arith);
        },
        127u8 => {
            assert(is_linear_light(127, 3530653)) by (nonlinear_arith);
        },
        128u8 => {
            assert(is_linear_light(128, 3591014)) by (nonlinear_arith);
        },
        129u8 => {
            assert(is_linear_light(129, 3651972)) by (nonlinear_arith);
        },
        130u8 => {
            assert(is_linear_light(130, 3713530)) by (nonlinear_arith);
        },
        131u8 => {
            assert(is_linear_light(131, 3775688)) by (nonlinear_arith);
        },
        132u8 => {
            assert(is_linear_light(132, 3838450)) by (nonlinear_arith);
        },
        133u8 => {
            assert(is_linear_light(133, 3901815)) by (nonlinear_arith);
        },
        134u8 => {
            assert(is_linear_light(134, 3965787)) by (nonlinear_arith);
        },
        135u8 => {
            assert(is_linear_light(135, 4030367)) by (nonlinear_arith);
        },
        136u8 => {
            assert(is_linear_light(136, 4095555)) by (nonlinear_arith);
        },
        137u8 => {
            assert(is_linear_light(137, 4161355)) by (nonlinear_arith);
        },
        138u8 => {
            assert(is_linear_light(138, 4227767)) by (nonlinear_arith);
        },
        139u8 => {
            assert(is_linear_light(139, 4294794)) by (nonlinear_arith);
        },
        140u8 => {
            assert(is_linear_light(140, 4362436)) by (nonlinear_arith);
        },
        141u8 => {
            assert(is_linear_light(141, 4430696)) by (nonlinear_arith);
        },
        142u8 => {
            assert(is_linear_light(142, 4499574)) by (nonlinear_arith);
        },
        143u8 => {
            assert(is_linear_light(143, 4569074)) by (nonlinear_arith);
        },
        144u8 => {
            assert(is_linear_light(144, 4639195)) by (nonlinear_arith);
        },
        145u8 => {
            assert(is_linear_light(145, 4709941)) by (nonlinear_arith);
        },
        146u8 => {
            assert(is_linear_light(146, 4781311)) by (nonlinear_arith);
        },
        147u8 => {
            assert(is_linear_light(147, 4853309)) by (nonlinear_arith);
        },
        148u8 => {
            assert(is_linear_light(148, 4925935)) by (nonlinear_arith);
        },
        149u8 => {
            assert(is_linear_light(149, 4999191)) by (nonlinear_arith);
        },
        150u8 => {
            assert(is_linear_light(150, 5073079)) by (nonlinear_arith);
        },
        151u8 => {
            assert(is_linear_light(151, 5147599)) by (nonlinear_arith);
        },
        152u8 => {
            assert(is_linear_light(152, 5222755)) by (nonlinear_arith);
        },
        153u8 => {
            assert(is_linear_light(153, 5298547)) by (nonlinear_arith);
        },
        154u8 => {
            assert(is_linear_light(154, 5374976)) by (nonlinear_arith);
        },
        155u8 => {
            assert(is_linear_light(155, 5452045)) by (nonlinear_arith);
        },
        156u8 => {
            assert(is_linear_light(156, 5529754)) by (nonlinear_arith);
        },
        157u8 => {
            assert(is_linear_light(157, 5608106)) by (nonlinear_arith);
        },
        158u8 => {
            assert(is_linear_light(158, 5687102)) by (nonlinear_arith);
        },
        159u8 => {
            assert(is_linear_light(159, 5766743)) by (nonlinear_arith);
        },
        160u8 => {
            assert(is_linear_light(160, 5847030)) by (nonlinear_arith);
        },
        161u8 => {
            assert(is_linear_light(161, 5927966)) by (nonlinear_arith);
        },
        162u8 => {
            assert(is_linear_light(162, 6009552)) by (nonlinear_arith);
        },
        163u8 => {
            assert(is_linear_light(163, 6091789)) by (nonlinear_arith);
        },
        164u8 => {
            assert(is_linear_light(164, 6174679)) by (nonlinear_arith);
        },
        165u8 => {
            assert(is_linear_light(165, 6258223)) by (nonlinear_arith);
        },
        166u8 => {
            assert(is_linear_light(166, 6342423)) by (nonlinear_arith);
        },
        167u8 => {
            assert(is_linear_light(167, 6427280)) by (nonlinear_arith);
        },
        168u8 => {
            assert(is_linear_light(168, 6512795)) by (nonlinear_arith);
        },
        169u8 => {
            assert(is_linear_light(169, 6598971)) by (nonlinear_arith);
        },
        170u8 => {
            assert(is_linear_light(170, 6685808)) by (nonlinear_arith);
        },
        171u8 => {
            assert(is_linear_light(171, 6773308)) by (nonlinear_arith);
        },
        172u8 => {
            assert(is_linear_light(172, 6861472)) by (nonlinear_arith);
        },
        173u8 => {
            assert(is_linear_light(173, 6950303)) by (nonlinear_arith);
        },
        174u8 => {
            assert(is_linear_light(174, 7039800)) by (nonlinear_arith);
        },
        175u8 => {
            assert(is_linear_light(175, 7129966)) by (nonlinear_arith);
        },
        176u8 => {
            assert(is_linear_light(176, 7220802)) by (nonlinear_arith);
        },
        177u8 => {
            assert(is_linear_light(177, 7312310)) by (nonlinear_arith);
        },
        178u8 => {
            assert(is_linear_light(178, 7404491)) by (nonlinear_arith);
        },
        179u8 => {
            assert(is_linear_light(179, 7497346)) by (nonlinear_arith);
        },
        180u8 => {
            assert(is_linear_light(180, 7590877)) by (nonlinear_arith);
        },
        181u8 => {
            assert(is_linear_light(181, 7685084)) by (nonlinear_arith);
        },
        182u8 => {
            assert(is_linear_light(182, 7779971)) by (nonlinear_arith);
        },
        183u8 => {
            assert(is_linear_light(183, 7875537)) by (nonlinear_arith);
        },
        184u8 => {
            assert(is_linear_light(184, 7971785)) by (nonlinear_arith);
        },
        185u8 => {
            assert(is_linear_light(185, 8068715)) by (nonlinear_arith);
        },
        186u8 => {
            assert(is_linear_light(186, 8166329)) by (nonlinear_arith);
        },
        187u8 => {
            assert(is_linear_light(187, 8264629)) by (nonlinear_arith);
        },
        188u8 => {
            assert(is_linear_light(188, 8363615)) by (nonlinear_arith);
        },
        189u8 => {
            assert(is_linear_light(189, 8463290)) by (nonlinear_arith);
        },
        190u8 => {
            assert(is_linear_light(190, 8563654)) by (nonlinear_arith);
        },
        191u8 => {
            assert(is_linear_light(191, 8664709)) by (nonlinear_arith);
        },
        192u8 => {
            assert(is_linear_light(192, 8766456)) by (nonlinear_arith);
        },
        193u8 => {
            assert(is_linear_light(193, 8868897)) by (nonlinear_arith);
        },
        194u8 => {
            assert(is_linear_light(194, 8972033)) by (nonlinear_arith);
        },
        195u8 => {
            assert(is_linear_light(195, 9075865)) by (nonlinear_arith);
        },
        196u8 => {
            assert(is_linear_light(196, 9180395)) by (nonlinear_arith);
        },
        197u8 => {
            assert(is_linear_light(197, 9285623)) by (nonlinear_arith);
        },
        198u8 => {
            assert(is_linear_light(198, 9391552)) by (nonlinear_arith);
        },
        199u8 => {
            assert(is_linear_light(199, 9498182)) by (nonlinear_arith);
        },
        200u8 => {
            assert(is_linear_light(200, 9605516)) by (nonlinear_arith);
        },
        201u8 => {
            assert(is_linear_light(201, 9713553)) by (nonlinear_arith);
        },
        202u8 => {
            assert(is_linear_light(202, 9822296)) by (nonlinear_arith);
        },
        203u8 => {
            assert(is_linear_light(203, 9931746)) by (nonlinear_arith);
        },
        204u8 => {
            assert(is_linear_light(204, 10041904)) by (nonlinear_arith);
        },
        205u8 => {
            assert(is_linear_light(205, 10152772)) by (nonlinear_arith);
        },
        206u8 => {
            assert(is_linear_light(206, 10264350)) by (nonlinear_arith);
        },
        207u8 => {
            assert(is_linear_light(207, 10376640)) by (nonlinear_arith);
        },
        208u8 => {
            assert(is_linear_light(208, 10489644)) by (nonlinear_arith);
        },
        209u8 => {
            assert(is_linear_light(209, 10603362)) by (nonlinear_arith);
        },
        210u8 => {
            assert(is_linear_light(210, 10717796)) by (nonlinear_arith);
        },
        211u8 => {
            assert(is_linear_light(211, 10832947)) by (nonlinear_arith);
        },
        212u8 => {
            assert(is_linear_light(212, 10948817)) by (nonlinear_arith);
        },
        213u8 => {
            assert(is_linear_light(213, 11065407)) by (nonlinear_arith);
        },
        214u8 => {
            assert(is_linear_light(214, 11182717)) by (nonlinear_arith);
        },
        215u8 => {
            assert(is_linear_light(215, 11300750)) by (nonlinear_arith);
        },
        216u8 => {
            assert(is_linear_light(216, 11419507)) by (nonlinear_arith);
        },
        217u8 => {
            assert(is_linear_light(217, 11538988)) by (nonlinear_arith);
        },
        218u8 => {
            assert(is_linear_light(218, 11659195)) by (nonlinear_arith);
        },
        219u8 => {
            assert(is_linear_light(219, 11780130)) by (nonlinear_arith);
        },
        220u8 => {
            assert(is_linear_light(220, 11901793)) by (nonlinear_arith);
        },
        221u8 => {
            assert(is_linear_light(221, 12024186)) by (nonlinear_arith);
        },
        222u8 => {
            assert(is_linear_light(222, 12147310)) by (nonlinear_arith);
        },
        223u8 => {
            assert(is_linear_light(223, 12271167)) by (nonlinear_arith);
        },
        224u8 => {
            assert(is_linear_light(224, 12395757)) by (nonlinear_arith);
        },
        225u8 => {
            assert(is_linear_light(225, 12521082)) by (nonlinear_arith);
        },
        226u8 => {
            assert(is_linear_light(226, 12647143)) by (nonlinear_arith);
        },
        227u8 => {
            assert(is_linear_light(227, 12773941)) by (nonlinear_arith);
        },
        228u8 => {
            assert(is_linear_light(228, 12901477)) by (nonlinear_arith);
        },
        229u8 => {
            assert(is_linear_light(229, 13029754)) by (nonlinear_arith);
        },
        230u8 => {
            assert(is_linear_light(230, 13158771)) by (nonlinear_arith);
        },
        231u8 => {
            assert(is_linear_light(231, 13288530)) by (nonlinear_arith);
        },
        232u8 => {
            assert(is_linear_light(232, 13419033)) by (nonlinear_arith);
        },
        233u8 => {
            assert(is_linear_light(233, 13550280)) by (nonlinear_arith);
        },
        234u8 => {
            assert(is_linear_light(234, 13682274)) by (nonlinear_arith);
        },
        235u8 => {
            assert(is_linear_light(235, 13815014)) by (nonlinear_arith);
        },
        236u8 => {
            assert(is_linear_light(236, 13948502)) by (nonlinear_arith);
        },
        237u8 => {
            assert(is_linear_light(237, 14082740)) by (nonlinear_arith);
        },
        238u8 => {
            assert(is_linear_light(238, 14217728)) by (nonlinear_arith);
        },
        239u8 => {
            assert(is_linear_light(239, 14353468)) by (nonlinear_arith);
        },
        240u8 => {
            assert(is_linear_light(240, 14489961)) by (nonlinear_arith);
        },
        241u8 => {
            assert(is_linear_light(241, 14627208)) by (nonlinear_arith);
        },
        242u8 => {
            assert(is_linear_light(242, 14765211)) by (nonlinear_arith);
        },
        243u8 => {
            assert(is_linear_light(243, 14903970)) by (nonlinear_arith);
        },
        244u8 => {
            assert(is_linear_light(244, 15043487)) by (nonlinear_arith);
        },
        245u8 => {
            assert(is_linear_light(245, 15183762)) by (nonlinear_arith);
        },
        246u8 => {
            assert(is_linear_light(246, 15324798)) by (nonlinear_arith);
        },
        247u8 => {
            assert(is_linear_light(247, 15466595)) by (nonlinear_arith);
        },
        248u8 => {
            assert(is_linear_light(248, 15609154)) by (nonlinear_arith);
        },
        249u8 => {
            assert(is_linear_light(249, 15752477)) by (nonlinear_arith);
        },
        250u8 => {
            assert(is_linear_light(250, 15896565)) by (nonlinear_arith);
        },
        251u8 => {
            assert(is_linear_light(251, 16041419)) by (nonlinear_arith);
        },
        252u8 => {
            assert(is_linear_light(252, 16187039)) by (nonlinear_arith);
        },
        253u8 => {
            assert(is_linear_light(253, 16333428)) by (nonlinear_arith);
        },
        254u8 => {
            assert(is_linear_light(254, 16480586)) by (nonlinear_arith);
        },
        255u8 => {
            assert(is_linear_light(255, 16628515)) by (nonlinear_arith);
        },
    }
}

/// Executable lookup of `linear_light_spec`.
pub fn linear_light(level: u8) -> (r: u32)
    ensures
        r as int == linear_light_spec(level),
        is_linear_light(level as int, r as int),
{
    proof {
        lemma_table_is_linear_light(level);
    }
    match level {
        0u8 => 0,
        1u8 => 5072,
        2u8 => 10144,
        3u8 => 15217,
        4u8 => 20289,
        5u8 => 25362,
        6u8 => 30434,
        7u8 => 35507,
        8u8 => 40579,
        9u8 => 45652,
        10u8 => 50724,
        11u8 => 55914,
        12u8 => 61415,
        13u8 => 67219,
        14u8 => 73331,
        15u8 => 79756,
        16u8 => 86497,
        17u8 => 93560,
        18u8 => 100948,
        19u8 => 108666,
        20u8 => 116717,
        21u8 => 125106,
        22u8 => 133837,
        23u8 => 142913,
        24u8 => 152338,
        25u8 => 162117,
        26u8 => 172252,
        27u8 => 182747,
        28u8 => 193606,
        29u8 => 204832,
        30u8 => 216430,
        31u8 => 228401,
        32u8 => 240750,
        33u8 => 253481,
        34u8 => 266595,
        35u8 => 280097,
        36u8 => 293989,
        37u8 => 308276,
        38u8 => 322959,
        39u8 => 338043,
        40u8 => 353529,
        41u8 => 369422,
        42u8 => 385724,
        43u8 => 402438,
        44u8 => 419567,
        45u8 => 437114,
        46u8 => 455082,
        47u8 => 473473,
        48u8 => 492291,
        49u8 => 511538,
        50u8 => 531217,
        51u8 => 551330,
        52u8 => 571881,
        53u8 => 592872,
        54u8 => 614306,
        55u8 => 636185,
        56u8 => 658512,
        57u8 => 681289,
        58u8 => 704520,
        59u8 => 728206,
        60u8 => 752350,
        61u8 => 776955,
        62u8 => 802023,
        63u8 => 827557,
        64u8 => 853559,
        65u8 => 880031,
        66u8 => 906976,
        67u8 => 934396,
        68u8 => 962293,
        69u8 => 990671,
        70u8 => 1019531,
        71u8 => 1048875,
        72u8 => 1078706,
        73u8 => 1109027,
        74u8 => 1139839,
        75u8 => 1171144,
        76u8 => 1202946,
        77u8 => 1235245,
        78u8 => 1268045,
        79u8 => 1301347,
        80u8 => 1335154,
        81u8 => 1369468,
        82u8 => 1404291,
        83u8 => 1439625,
        84u8 => 1475472,
        85u8 => 1511835,
        86u8 => 1548715,
        87u8 => 1586114,
        88u8 => 1624036,
        89u8 => 1662480,
        90u8 => 1701451,
        91u8 => 1740949,
        92u8 => 1780977,
        93u8 => 1821537,
        94u8 => 1862631,
        95u8 => 1904260,
        96u8 => 1946427,
        97u8 => 1989134,
        98u8 => 2032383,
        99u8 => 2076175,
        100u8 => 2120512,
        101u8 => 2165397,
        102u8 => 2210832,
        103u8 => 2256818,
        104u8 => 2303357,
        105u8 => 2350451,
        106u8 => 2398102,
        107u8 => 2446312,
        108u8 => 2495082,
        109u8 => 2544415,
        110u8 => 2594312,
        111u8 => 2644776,
        112u8 => 2695807,
        113u8 => 2747409,
        114u8 => 2799582,
        115u8 => 2852328,
        116u8 => 2905650,
        117u8 => 2959548,
        118u8 => 3014026,
        119u8 => 3069084,
        120u8 => 3124724,
        121u8 => 3180948,
        122u8 => 3237758,
        123u8 => 3295155,
        124u8 => 3353141,
        125u8 => 3411719,
        126u8 => 3470889,
        127u8 => 3530653,
        128u8 => 3591014,
        129u8 => 3651972,
        130u8 => 3713530,
        131u8 => 3775688,
        132u8 => 3838450,
        133u8 => 3901815,
        134u8 => 3965787,
        135u8 => 4030367,
        136u8 => 4095555,
        137u8 => 4161355,
        138u8 => 4227767,
        139u8 => 4294794,
        140u8 => 4362436,
        141u8 => 4430696,
        142u8 => 4499574,
        143u8 => 4569074,
        144u8 => 4639195,
        145u8 => 4709941,
        146u8 => 4781311,
        147u8 => 4853309,
        148u8 => 4925935,
        149u8 => 4999191,
        150u8 => 5073079,
        151u8 => 5147599,
        152u8 => 5222755,
        153u8 => 5298547,
        154u8 => 5374976,
        155u8 => 5452045,
        156u8 => 5529754,
        157u8 => 5608106,
        158u8 => 5687102,
        159u8 => 5766743,
        160u8 => 5847030,
        161u8 => 5927966,
        162u8 => 6009552,
        163u8 => 6091789,
        164u8 => 6174679,
        165u8 => 6258223,
        166u8 => 6342423,
        167u8 => 6427280,
        168u8 => 6512795,
        169u8 => 6598971,
        170u8 => 6685808,
        171u8 => 6773308,
        172u8 => 6861472,
        173u8 => 6950303,
        174u8 => 7039800,
        175u8 => 7129966,
        176u8 => 7220802,
        177u8 => 7312310,
        178u8 => 7404491,
        179u8 => 7497346,
        180u8 => 7590877,
        181u8 => 7685084,
        182u8 => 7779971,
        183u8 => 7875537,
        184u8 => 7971785,
        185u8 => 8068715,
        186u8 => 8166329,
        187u8 => 8264629,
        188u8 => 8363615,
        189u8 => 8463290,
        190u8 => 8563654,
        191u8 => 8664709,
        192u8 => 8766456,
        193u8 => 8868897,
        194u8 => 8972033,
        195u8 => 9075865,
        196u8 => 9180395,
        197u8 => 9285623,
        198u8 => 9391552,
        199u8 => 9498182,
        200u8 => 9605516,
        201u8 => 9713553,
        202u8 => 9822296,
        203u8 => 9931746,
        204u8 => 10041904,
        205u8 => 10152772,
        206u8 => 10264350,
        207u8 => 10376640,
        208u8 => 10489644,
        209u8 => 10603362,
        210u8 => 10717796,
        211u8 => 10832947,
        212u8 => 10948817,
        213u8 => 11065407,
        214u8 => 11182717,
        215u8 => 11300750,
        216u8 => 11419507,
        217u8 => 11538988,
        218u8 => 11659195,
        219u8 => 11780130,
        220u8 => 11901793,
        221u8 => 12024186,
        222u8 => 12147310,
        223u8 => 12271167,
        224u8 => 12395757,
        225u8 => 12521082,
        226u8 => 12647143,
        227u8 => 12773941,
        228u8 => 12901477,
        229u8 => 13029754,
        230u8 => 13158771,
        231u8 => 13288530,
        232u8 => 13419033,
        233u8 => 13550280,
        234u8 => 13682274,
        235u8 => 13815014,
        236u8 => 13948502,
        237u8 => 14082740,
        238u8 => 14217728,
        239u8 => 14353468,
        240u8 => 14489961,
        241u8 => 14627208,
        242u8 => 14765211,
        243u8 => 14903970,
        244u8 => 15043487,
        245u8 => 15183762,
        246u8 => 15324798,
        247u8 => 15466595,
        248u8 => 15609154,
        249u8 => 15752477,
        250u8 => 15896565,
        251u8 => 16041419,
        252u8 => 16187039,
        253u8 => 16333428,
        254u8 => 16480586,
        255u8 => 16628515,
    }
}

} // verus!
