//! Tabulated critical values of the standard normal distribution and of
//! Student's t distribution.
//!
//! A tail probability is counted in millionths, a critical value in
//! millionths of a standard deviation. Each table holds, for every tail
//! probability of the grid, the value that the distribution exceeds with
//! that probability.

use vstd::prelude::*;

verus! {

/// Number of tail probabilities in the grid.
pub const GRID_LEN: usize = 78;

/// Number of degrees of freedom that are tabulated.
pub const ROWS: usize = 39;

/// The tabulated upper tail probabilities, in millionths, ascending up to
/// one half.
pub const TAIL_GRID: [u32; 78] = [
    100, 112, 125, 140, 160, 180, 200, 224, 250, 280, 315, 355, 400, 450, 500, 560, 630, 710,
    800, 900, 1_000, 1_120, 1_250, 1_400, 1_600, 1_800, 2_000, 2_240, 2_500, 2_800, 3_150,
    3_550, 4_000, 4_500, 5_000, 5_600, 6_300, 7_100, 8_000, 9_000, 10_000, 11_200, 12_500,
    14_000, 16_000, 18_000, 20_000, 22_400, 25_000, 28_000, 31_500, 35_500, 40_000, 45_000,
    50_000, 56_000, 63_000, 71_000, 80_000, 90_000, 100_000, 112_000, 125_000, 140_000,
    150_000, 160_000, 180_000, 200_000, 224_000, 250_000, 280_000, 300_000, 315_000, 350_000,
    355_000, 400_000, 450_000, 500_000,
];

/// The tabulated degrees of freedom, ascending.
pub const STUDENT_DF: [u32; 39] = [
    1, 2, 3, 4, 5, 6, 7, 8, 9, 10, 11, 12, 13, 14, 15, 16, 17, 18, 19, 20, 21, 22, 23, 24, 25,
    26, 27, 28, 29, 30, 40, 50, 60, 80, 100, 120, 200, 500, 1_000,
];

/// Critical values of the standard normal distribution along the grid.
pub const NORMAL: [i64; 78] = [
    3_719_016, 3_690_288, 3_662_260, 3_633_134, 3_598_547, 3_567_794, 3_540_084, 3_510_063,
    3_480_756, 3_450_283, 3_418_359, 3_385_688, 3_352_795, 3_320_054, 3_290_527, 3_258_507,
    3_224_938, 3_190_555, 3_155_907, 3_121_389, 3_090_232, 3_056_416, 3_023_341, 2_988_882,
    2_947_843, 2_911_238, 2_878_162, 2_842_224, 2_807_034, 2_770_327, 2_731_744, 2_692_117,
    2_652_070, 2_612_054, 2_575_829, 2_536_396, 2_494_879, 2_452_164, 2_408_916, 2_365_618,
    2_326_348, 2_283_516, 2_241_403, 2_197_286, 2_144_411, 2_096_927, 2_053_749, 2_006_527,
    1_959_964, 1_911_036, 1_859_191, 1_805_477, 1_750_686, 1_695_398, 1_644_854, 1_589_268,
    1_530_068, 1_468_384, 1_405_072, 1_340_755, 1_281_552, 1_215_960, 1_150_349, 1_080_319,
    1_036_433, 994_458, 915_365, 841_621, 758_754, 674_490, 582_842, 524_401, 481_727, 385_320,
    371_856, 253_347, 125_661, 0,
];

/// Critical values of Student's t distribution with 1 degree of freedom.
pub const STUDENT_1: [i64; 78] = [
    3_183_098_757, 2_842_052_438, 2_546_478_959, 2_273_641_898, 1_989_436_621, 1_768_388_068,
    1_591_549_221, 1_421_026_043, 1_273_239_283, 1_136_820_729, 1_010_507_245, 896_647_195,
    795_774_297, 707_354_831, 636_619_249, 568_409_925, 505_253_128, 448_323_040, 397_886_520,
    353_676_709, 318_308_839, 284_204_083, 254_646_600, 227_362_738, 198_942_003, 176_836_941,
    159_152_849, 142_100_282, 127_321_336, 113_679_170, 101_047_459, 89_661_039, 79_573_283,
    70_730_818, 63_656_741, 56_835_187, 50_518_781, 44_824_943, 39_780_358, 35_358_340,
    31_820_516, 28_408_796, 25_451_700, 22_721_758, 19_877_610, 17_665_029, 15_894_545,
    14_186_798, 12_706_205, 11_338_874, 10_072_067, 8_929_269, 7_915_815, 7_026_366, 6_313_752,
    5_625_341, 4_986_391, 4_408_639, 3_894_743, 3_442_023, 3_077_684, 2_723_787, 2_414_214,
    2_125_108, 1_962_611, 1_818_993, 1_575_748, 1_376_382, 1_178_325, 1_000_000, 827_272,
    726_543, 656_877, 509_525, 489_895, 324_920, 158_384, 0,
];

/// Critical values of Student's t distribution with 2 degrees of freedom.
pub const STUDENT_2: [i64; 78] = [
    70_700_071, 66_804_085, 63_233_694, 59_748_880, 55_888_282, 52_690_396, 49_984_999,
    47_229_683, 44_704_587, 42_239_962, 39_822_126, 37_509_344, 35_334_122, 33_310_829,
    31_599_055, 29_855_610, 28_145_179, 26_508_974, 24_969_990, 23_538_394, 22_327_125,
    21_093_343, 19_962_480, 18_858_514, 17_635_215, 16_621_633, 15_763_915, 14_890_111,
    14_089_047, 13_306_872, 12_539_208, 11_804_527, 11_113_146, 10_469_640, 9_924_843,
    9_369_553, 8_824_299, 8_302_175, 7_810_508, 7_352_557, 6_964_557, 6_568_753, 6_205_347,
    5_849_905, 5_455_101, 5_127_079, 4_848_732, 4_564_306, 4_302_653, 4_046_177, 3_793_320,
    3_550_058, 3_319_764, 3_103_977, 2_919_986, 2_730_976, 2_543_644, 2_362_301, 2_189_401,
    2_026_081, 1_885_618, 1_739_928, 1_603_567, 1_467_250, 1_386_207, 1_311_578, 1_177_936,
    1_060_660, 936_201, 816_497, 692_935, 617_213, 563_230, 444_750, 428_538, 288_675, 142_134,
    0,
];

/// Critical values of Student's t distribution with 3 degrees of freedom.
pub const STUDENT_3: [i64; 78] = [
    22_203_742, 21_376_533, 20_604_087, 19_835_863, 18_966_939, 18_231_743, 17_597_935,
    16_940_405, 16_326_335, 15_715_545, 15_104_504, 14_508_126, 13_935_720, 13_392_441,
    12_923_979, 12_437_866, 11_951_446, 11_476_582, 11_020_684, 10_587_860, 10_214_532,
    9_827_018, 9_464_900, 9_104_482, 8_696_441, 8_350_844, 8_052_613, 7_742_896, 7_453_319,
    7_164_931, 6_876_024, 6_593_615, 6_322_101, 6_063_935, 5_840_909, 5_609_028, 5_376_481,
    5_148_893, 4_929_800, 4_721_183, 4_540_703, 4_352_769, 4_176_535, 4_000_461, 3_800_211,
    3_629_741, 3_481_909, 3_327_579, 3_182_446, 3_036_999, 2_890_254, 2_745_663, 2_605_427,
    2_470_807, 2_353_363, 2_229_967, 2_104_703, 1_980_416, 1_858_928, 1_741_297, 1_637_744,
    1_527_868, 1_422_625, 1_314_977, 1_249_778, 1_188_929, 1_077_974, 978_472, 870_679,
    764_892, 653_596, 584_390, 534_615, 424_202, 408_979, 276_671, 136_598, 0,
];

/// Critical values of Student's t distribution with 4 degrees of freedom.
pub const STUDENT_4: [i64; 78] = [
    13_033_672, 12_662_354, 12_312_247, 11_960_662, 11_558_696, 11_214_840, 10_915_495,
    10_601_956, 10_306_255, 10_009_229, 9_709_034, 9_412_948, 9_125_732, 8_850_238, 8_610_302,
    8_358_875, 8_104_662, 7_853_820, 7_610_377, 7_376_754, 7_173_182, 6_959_751, 6_758_253,
    6_555_627, 6_323_594, 6_124_757, 5_951_373, 5_769_455, 5_597_568, 5_424_571, 5_249_347,
    5_076_111, 4_907_636, 4_745_600, 4_604_095, 4_455_394, 4_304_569, 4_155_225, 4_009_744,
    3_869_574, 3_746_947, 3_617_845, 3_495_406, 3_371_685, 3_229_194, 3_106_318, 2_998_528,
    2_884_719, 2_776_445, 2_666_667, 2_554_562, 2_442_719, 2_332_873, 2_226_100, 2_131_847,
    2_031_667, 1_928_725, 1_825_302, 1_722_933, 1_622_578, 1_533_206, 1_437_304, 1_344_398,
    1_248_298, 1_189_567, 1_134_397, 1_032_918, 940_965, 840_368, 740_697, 634_891, 568_649,
    520_810, 414_163, 399_408, 270_722, 133_830, 0,
];

/// Critical values of Student's t distribution with 5 degrees of freedom.
pub const STUDENT_5: [i64; 78] = [
    9_677_566, 9_450_701, 9_235_495, 9_018_064, 8_767_798, 8_552_233, 8_363_418, 8_164_456,
    7_975_653, 7_784_830, 7_590_727, 7_398_011, 7_209_814, 7_028_092, 6_868_827, 6_700_899,
    6_529_994, 6_360_211, 6_194_308, 6_034_009, 5_893_430, 5_745_106, 5_604_165, 5_461_512,
    5_296_971, 5_154_926, 5_030_244, 4_898_577, 4_773_341, 4_646_453, 4_517_039, 4_388_175,
    4_261_945, 4_139_661, 4_032_143, 3_918_399, 3_802_208, 3_686_312, 3_572_576, 3_462_182,
    3_364_930, 3_261_839, 3_163_381, 3_063_192, 2_946_899, 2_845_814, 2_756_509, 2_661_559,
    2_570_582, 2_477_682, 2_382_111, 2_286_038, 2_190_958, 2_097_837, 2_015_048, 1_926_441,
    1_834_722, 1_741_883, 1_649_300, 1_557_869, 1_475_884, 1_387_322, 1_300_949, 1_211_019,
    1_155_767, 1_103_668, 1_007_350, 919_544, 822_936, 726_687, 623_983, 559_430, 512_700,
    408_229, 393_745, 267_181, 132_175, 0,
];

/// Critical values of Student's t distribution with 6 degrees of freedom.
pub const STUDENT_6: [i64; 78] = [
    8_024_793, 7_862_390, 7_707_684, 7_550_719, 7_369_204, 7_212_107, 7_073_919, 6_927_694,
    6_788_340, 6_646_888, 6_502_363, 6_358_209, 6_216_780, 6_079_584, 5_958_816, 5_830_932,
    5_700_187, 5_569_690, 5_441_570, 5_317_191, 5_207_626, 5_091_518, 4_980_694, 4_868_016,
    4_737_400, 4_624_063, 4_524_128, 4_418_120, 4_316_827, 4_213_726, 4_108_069, 4_002_344,
    3_898_263, 3_796_936, 3_707_428, 3_612_301, 3_514_655, 3_416_768, 3_320_219, 3_226_035,
    3_142_668, 3_053_884, 2_968_687, 2_881_576, 2_779_929, 2_691_098, 2_612_242, 2_528_008,
    2_446_912, 2_363_705, 2_277_680, 2_190_764, 2_104_306, 2_019_201, 1_943_180, 1_861_440,
    1_776_417, 1_689_928, 1_603_251, 1_517_235, 1_439_756, 1_355_694, 1_273_349, 1_187_242,
    1_134_157, 1_083_976, 990_894, 905_703, 811_625, 717_558, 616_844, 553_381, 507_370,
    404_313, 390_007, 264_835, 131_076, 0,
];

/// Critical values of Student's t distribution with 7 degrees of freedom.
pub const STUDENT_7: [i64; 78] = [
    7_063_433, 6_935_901, 6_814_035, 6_690_005, 6_546_079, 6_421_075, 6_310_770, 6_193_689,
    6_081_756, 5_967_778, 5_850_940, 5_734_005, 5_618_889, 5_506_836, 5_407_883, 5_302_767,
    5_194_939, 5_086_944, 4_980_545, 4_876_895, 4_785_290, 4_687_902, 4_594_638, 4_499_502,
    4_388_816, 4_292_412, 4_207_125, 4_116_357, 4_029_337, 3_940_466, 3_849_074, 3_757_293,
    3_666_613, 3_578_015, 3_499_483, 3_415_744, 3_329_483, 3_242_695, 3_156_780, 3_072_663,
    2_997_952, 2_918_117, 2_841_244, 2_762_375, 2_669_993, 2_588_946, 2_516_752, 2_439_375,
    2_364_624, 2_287_664, 2_207_816, 2_126_847, 2_046_011, 1_966_153, 1_894_579, 1_817_366,
    1_736_774, 1_654_505, 1_571_766, 1_489_376, 1_414_924, 1_333_897, 1_254_279, 1_170_769,
    1_119_159, 1_070_287, 979_423, 896_030, 803_696, 711_142, 611_813, 549_110, 503_601,
    401_538, 387_357, 263_167, 130_293, 0,
];

/// Critical values of Student's t distribution with 8 degrees of freedom.
pub const STUDENT_8: [i64; 78] = [
    6_442_000, 6_335_781, 6_234_039, 6_130_240, 6_009_470, 5_904_293, 5_811_258, 5_712_273,
    5_617_411, 5_520_579, 5_421_066, 5_321_211, 5_222_650, 5_126_460, 5_041_305, 4_950_628,
    4_857_372, 4_763_723, 4_671_212, 4_580_851, 4_500_791, 4_415_467, 4_333_550, 4_249_777,
    4_152_039, 4_066_669, 3_990_950, 3_910_166, 3_832_519, 3_753_017, 3_671_043, 3_588_496,
    3_506_714, 3_426_590, 3_355_387, 3_279_271, 3_200_652, 3_121_335, 3_042_597, 2_965_296,
    2_896_459, 2_822_716, 2_751_524, 2_678_293, 2_592_270, 2_516_581, 2_448_985, 2_376_353,
    2_306_004, 2_233_390, 2_157_851, 2_081_043, 2_004_152, 1_927_986, 1_859_548, 1_785_537,
    1_708_089, 1_628_821, 1_548_892, 1_469_095, 1_396_815, 1_317_971, 1_240_318, 1_158_686,
    1_108_145, 1_060_224, 970_971, 888_890, 797_833, 706_387, 608_076, 545_934, 500_796,
    399_469, 385_381, 261_921, 129_707, 0,
];

/// Critical values of Student's t distribution with 9 degrees of freedom.
pub const STUDENT_9: [i64; 78] = [
    6_010_132, 5_918_078, 5_829_736, 5_739_436, 5_634_150, 5_542_258, 5_460_820, 5_374_009,
    5_290_654, 5_205_403, 5_117_615, 5_029_345, 4_942_035, 4_856_650, 4_780_913, 4_700_108,
    4_616_836, 4_533_039, 4_450_085, 4_368_889, 4_296_806, 4_219_834, 4_145_789, 4_069_916,
    3_981_198, 3_903_533, 3_834_510, 3_760_725, 3_689_662, 3_616_756, 3_541_426, 3_465_407,
    3_389_929, 3_315_824, 3_249_836, 3_179_154, 3_105_995, 3_032_027, 2_958_440, 2_886_040,
    2_821_438, 2_752_093, 2_685_011, 2_615_868, 2_534_466, 2_462_680, 2_398_441, 2_329_279,
    2_262_157, 2_192_735, 2_120_367, 2_046_628, 1_972_653, 1_899_222, 1_833_113, 1_761_484,
    1_686_379, 1_609_353, 1_531_527, 1_453_676, 1_383_029, 1_305_828, 1_229_659, 1_149_447,
    1_099_716, 1_052_515, 964_487, 883_404, 793_321, 702_722, 605_192, 543_480, 498_628,
    397_868, 383_851, 260_955, 129_253, 0,
];

/// Critical values of Student's t distribution with 10 degrees of freedom.
pub const STUDENT_10: [i64; 78] = [
    5_693_820, 5_611_769, 5_532_904, 5_452_167, 5_357_868, 5_275_421, 5_202_239, 5_124_110,
    5_048_973, 4_972_006, 4_892_620, 4_812_663, 4_733_443, 4_655_839, 4_586_894, 4_513_222,
    4_437_175, 4_360_518, 4_284_503, 4_209_972, 4_143_700, 4_072_823, 4_004_530, 3_934_439,
    3_852_336, 3_780_332, 3_716_236, 3_647_608, 3_581_406, 3_513_376, 3_442_967, 3_371_790,
    3_300_998, 3_231_372, 3_169_273, 3_102_650, 3_033_575, 2_963_617, 2_893_897, 2_825_183,
    2_763_769, 2_697_743, 2_633_767, 2_567_719, 2_489_821, 2_421_000, 2_359_315, 2_292_797,
    2_228_139, 2_161_157, 2_091_218, 2_019_834, 1_948_099, 1_876_774, 1_812_461, 1_742_672,
    1_669_380, 1_594_091, 1_517_898, 1_441_559, 1_372_184, 1_296_265, 1_221_255, 1_142_154,
    1_093_058, 1_046_423, 959_356, 879_058, 789_741, 699_812, 602_898, 541_528, 496_902,
    396_591, 382_631, 260_185, 128_890, 0,
];

/// Critical values of Student's t distribution with 11 degrees of freedom.
pub const STUDENT_11: [i64; 78] = [
    5_452_762, 5_378_106, 5_306_256, 5_232_606, 5_146_462, 5_071_036, 5_003_999, 4_932_339,
    4_863_333, 4_792_556, 4_719_455, 4_645_726, 4_572_575, 4_500_815, 4_436_979, 4_368_679,
    4_298_081, 4_226_817, 4_156_049, 4_086_566, 4_024_701, 3_958_450, 3_894_532, 3_828_842,
    3_751_782, 3_684_099, 3_623_769, 3_559_090, 3_496_614, 3_432_327, 3_365_700, 3_298_250,
    3_231_069, 3_164_901, 3_105_807, 3_042_324, 2_976_415, 2_909_568, 2_842_853, 2_777_007,
    2_718_079, 2_654_641, 2_593_093, 2_529_466, 2_454_313, 2_387_819, 2_328_140, 2_263_703,
    2_200_985, 2_135_929, 2_067_908, 1_998_386, 1_928_427, 1_858_772, 1_795_885, 1_727_559,
    1_655_710, 1_581_806, 1_506_917, 1_431_788, 1_363_430, 1_288_540, 1_214_460, 1_136_252,
    1_087_666, 1_041_486, 955_195, 875_530, 786_833, 697_445, 601_032, 539_938, 495_496,
    395_551, 381_637, 259_556, 128_594, 0,
];

/// Critical values of Student's t distribution with 12 degrees of freedom.
pub const STUDENT_12: [i64; 78] = [
    5_263_273, 5_194_282, 5_127_813, 5_059_604, 4_979_728, 4_909_704, 4_847_401, 4_780_730,
    4_716_459, 4_650_465, 4_582_227, 4_513_323, 4_444_878, 4_377_656, 4_317_791, 4_253_670,
    4_187_316, 4_120_258, 4_053_588, 3_988_050, 3_929_633, 3_867_007, 3_806_518, 3_744_285,
    3_671_188, 3_606_906, 3_549_544, 3_487_979, 3_428_444, 3_367_116, 3_303_481, 3_238_984,
    3_174_667, 3_111_245, 3_054_540, 2_993_557, 2_930_170, 2_865_804, 2_801_489, 2_737_937,
    2_680_998, 2_619_635, 2_560_033, 2_498_350, 2_425_405, 2_360_783, 2_302_722, 2_239_964,
    2_178_813, 2_115_313, 2_048_845, 1_980_832, 1_912_313, 1_844_015, 1_782_288, 1_715_153,
    1_644_480, 1_571_706, 1_497_882, 1_423_742, 1_356_217, 1_282_169, 1_208_853, 1_131_377,
    1_083_211, 1_037_405, 951_752, 872_609, 784_424, 695_483, 599_482, 538_618, 494_328,
    394_686, 380_810, 259_033, 128_347, 0,
];

/// Critical values of Student's t distribution with 13 degrees of freedom.
pub const STUDENT_13: [i64; 78] = [
    5_110_579, 5_046_053, 4_983_829, 4_919_916, 4_844_996, 4_779_247, 4_720_693, 4_657_977,
    4_597_461, 4_535_266, 4_470_894, 4_405_828, 4_341_131, 4_277_528, 4_220_832, 4_160_049,
    4_097_088, 4_033_394, 3_970_006, 3_907_632, 3_851_982, 3_792_268, 3_734_536, 3_675_083,
    3_605_180, 3_543_640, 3_488_673, 3_429_624, 3_372_468, 3_313_534, 3_252_323, 3_190_221,
    3_128_230, 3_067_038, 3_012_276, 2_953_328, 2_891_996, 2_829_654, 2_767_298, 2_705_620,
    2_650_309, 2_590_644, 2_532_638, 2_472_550, 2_401_417, 2_338_335, 2_281_604, 2_220_228,
    2_160_369, 2_098_153, 2_032_967, 1_966_202, 1_898_874, 1_831_700, 1_770_933, 1_704_787,
    1_635_090, 1_563_256, 1_490_317, 1_417_001, 1_350_171, 1_276_826, 1_204_146, 1_127_284,
    1_079_469, 1_033_976, 948_857, 870_152, 782_395, 693_829, 598_176, 537_504, 493_342,
    393_955, 380_112, 258_591, 128_139, 0,
];

/// Critical values of Student's t distribution with 14 degrees of freedom.
pub const STUDENT_14: [i64; 78] = [
    4_985_013, 4_924_090, 4_865_293, 4_804_852, 4_733_939, 4_671_650, 4_616_133, 4_556_623,
    4_499_155, 4_440_044, 4_378_813, 4_316_869, 4_255_223, 4_194_567, 4_140_454, 4_082_395,
    4_022_204, 3_961_261, 3_900_557, 3_840_773, 3_787_390, 3_730_063, 3_674_594, 3_617_425,
    3_550_146, 3_490_862, 3_437_867, 3_380_890, 3_325_696, 3_268_738, 3_209_530, 3_149_407,
    3_089_339, 3_029_995, 2_976_843, 2_919_582, 2_859_956, 2_799_295, 2_738_569, 2_678_451,
    2_624_494, 2_566_245, 2_509_569, 2_450_813, 2_381_194, 2_319_399, 2_263_781, 2_203_563,
    2_144_787, 2_083_648, 2_019_539, 1_953_822, 1_887_496, 1_821_267, 1_761_310, 1_695_996,
    1_627_124, 1_556_082, 1_483_892, 1_411_273, 1_345_030, 1_272_280, 1_200_140, 1_123_798,
    1_076_280, 1_031_053, 946_388, 868_055, 780_663, 692_417, 597_060, 536_552, 492_499,
    393_331, 379_515, 258_213, 127_961, 0,
];

/// Critical values of Student's t distribution with 15 degrees of freedom.
pub const STUDENT_15: [i64; 78] = [
    4_879_998, 4_822_038, 4_766_062, 4_708_480, 4_640_869, 4_581_435, 4_528_424, 4_471_562,
    4_416_613, 4_360_053, 4_301_422, 4_242_063, 4_182_946, 4_124_734, 4_072_765, 4_016_968,
    3_959_080, 3_900_424, 3_841_954, 3_784_327, 3_732_834, 3_677_498, 3_623_918, 3_568_656,
    3_503_570, 3_446_174, 3_394_829, 3_339_589, 3_286_039, 3_230_738, 3_173_210, 3_114_751,
    3_056_300, 2_998_510, 2_946_713, 2_890_874, 2_832_686, 2_773_443, 2_714_092, 2_655_291,
    2_602_480, 2_545_429, 2_489_880, 2_432_251, 2_363_916, 2_303_213, 2_248_540, 2_189_306,
    2_131_450, 2_071_227, 2_008_035, 1_943_210, 1_877_739, 1_812_316, 1_753_050, 1_688_448,
    1_620_279, 1_549_916, 1_478_367, 1_406_344, 1_340_606, 1_268_365, 1_196_689, 1_120_793,
    1_073_531, 1_028_533, 944_258, 866_245, 779_168, 691_197, 596_095, 535_729, 491_771,
    392_790, 378_998, 257_885, 127_806, 0,
];

/// Critical values of Student's t distribution with 16 degrees of freedom.
pub const STUDENT_16: [i64; 78] = [
    4_790_910, 4_735_427, 4_681_810, 4_626_621, 4_561_776, 4_504_733, 4_453_824, 4_399_184,
    4_346_349, 4_291_931, 4_235_485, 4_178_301, 4_121_312, 4_065_159, 4_014_996, 3_961_106,
    3_905_161, 3_848_436, 3_791_853, 3_736_049, 3_686_155, 3_632_503, 3_580_522, 3_526_876,
    3_463_650, 3_407_855, 3_357_911, 3_304_146, 3_251_993, 3_198_102, 3_142_005, 3_084_961,
    3_027_887, 2_971_423, 2_920_782, 2_866_156, 2_809_196, 2_751_166, 2_692_990, 2_635_317,
    2_583_487, 2_527_462, 2_472_878, 2_416_217, 2_348_984, 2_289_219, 2_235_358, 2_176_970,
    2_119_905, 2_060_472, 1_998_069, 1_934_014, 1_869_279, 1_804_553, 1_745_884, 1_681_896,
    1_614_336, 1_544_560, 1_473_565, 1_402_059, 1_336_757, 1_264_959, 1_193_685, 1_118_176,
    1_071_137, 1_026_337, 942_402, 864_667, 777_863, 690_132, 595_253, 535_010, 491_134,
    392_318, 378_547, 257_599, 127_671, 0,
];

/// Critical values of Student's t distribution with 17 degrees of freedom.
pub const STUDENT_17: [i64; 78] = [
    4_714_407, 4_661_023, 4_609_406, 4_556_248, 4_493_750, 4_438_739, 4_389_616, 4_336_865,
    4_285_828, 4_233_235, 4_178_649, 4_123_319, 4_068_144, 4_013_746, 3_965_126, 3_912_864,
    3_858_579, 3_803_505, 3_748_537, 3_694_293, 3_645_767, 3_593_559, 3_542_949, 3_490_689,
    3_429_059, 3_374_638, 3_325_899, 3_273_401, 3_222_450, 3_169_772, 3_114_906, 3_059_082,
    3_003_196, 2_947_874, 2_898_231, 2_844_653, 2_788_753, 2_731_771, 2_674_613, 2_617_915,
    2_566_934, 2_511_797, 2_458_051, 2_402_228, 2_335_951, 2_277_000, 2_223_845, 2_166_192,
    2_109_816, 2_051_068, 1_989_352, 1_925_968, 1_861_875, 1_797_755, 1_739_607, 1_676_155,
    1_609_127, 1_539_863, 1_469_354, 1_398_300, 1_333_379, 1_261_969, 1_191_047, 1_115_878,
    1_069_033, 1_024_407, 940_769, 863_279, 776_715, 689_195, 594_511, 534_377, 490_574,
    391_902, 378_149, 257_347, 127_552, 0,
];

/// Critical values of Student's t distribution with 18 degrees of freedom.
pub const STUDENT_18: [i64; 78] = [
    4_648_014, 4_596_431, 4_546_530, 4_495_115, 4_434_634, 4_381_369, 4_333_783, 4_282_656,
    4_233_167, 4_182_144, 4_129_162, 4_075_428, 4_021_817, 3_968_935, 3_921_646, 3_870_790,
    3_817_939, 3_764_292, 3_710_719, 3_657_826, 3_610_485, 3_559_527, 3_510_104, 3_459_045,
    3_398_800, 3_345_572, 3_297_878, 3_246_481, 3_196_574, 3_144_950, 3_091_156, 3_036_393,
    2_981_541, 2_927_214, 2_878_440, 2_825_776, 2_770_802, 2_714_734, 2_658_464, 2_602_618,
    2_552_380, 2_498_020, 2_445_006, 2_389_917, 2_324_477, 2_266_240, 2_213_703, 2_156_694,
    2_100_922, 2_042_777, 1_981_664, 1_918_868, 1_855_340, 1_791_754, 1_734_064, 1_671_084,
    1_604_524, 1_535_712, 1_465_630, 1_394_974, 1_330_391, 1_259_322, 1_188_711, 1_113_842,
    1_067_170, 1_022_698, 939_323, 862_049, 775_698, 688_364, 593_853, 533_816, 490_076,
    391_533, 377_796, 257_123, 127_447, 0,
];

/// Critical values of Student's t distribution with 19 degrees of freedom.
pub const STUDENT_19: [i64; 78] = [
    4_589_865, 4_539_841, 4_491_430, 4_441_526, 4_382_795, 4_331_046, 4_284_793, 4_235_078,
    4_186_935, 4_137_278, 4_085_690, 4_033_346, 3_981_098, 3_929_535, 3_883_406, 3_833_776,
    3_782_176, 3_729_774, 3_677_420, 3_625_706, 3_579_400, 3_529_535, 3_481_151, 3_431_143,
    3_372_110, 3_319_926, 3_273_148, 3_222_716, 3_173_725, 3_123_026, 3_070_171, 3_016_340,
    2_962_396, 2_908_944, 2_860_935, 2_809_073, 2_754_913, 2_699_650, 2_644_162, 2_589_068,
    2_539_483, 2_485_809, 2_433_440, 2_378_999, 2_314_298, 2_256_691, 2_204_701, 2_148_262,
    2_093_024, 2_035_412, 1_974_833, 1_912_559, 1_849_530, 1_786_417, 1_729_133, 1_666_572,
    1_600_428, 1_532_017, 1_462_314, 1_392_012, 1_327_728, 1_256_964, 1_186_629, 1_112_026,
    1_065_507, 1_021_172, 938_032, 860_951, 774_789, 687_621, 593_266, 533_314, 489_631,
    391_202, 377_481, 256_923, 127_352, 0,
];

/// Critical values of Student's t distribution with 20 degrees of freedom.
pub const STUDENT_20: [i64; 78] = [
    4_538_521, 4_489_862, 4_442_753, 4_394_172, 4_336_974, 4_286_552, 4_241_468, 4_192_991,
    4_146_028, 4_097_568, 4_047_204, 3_996_081, 3_945_029, 3_894_626, 3_849_516, 3_800_965,
    3_750_464, 3_699_158, 3_647_878, 3_597_203, 3_551_808, 3_502_906, 3_455_438, 3_406_358,
    3_348_393, 3_297_132, 3_251_162, 3_201_583, 3_153_401, 3_103_519, 3_051_496, 2_998_489,
    2_945_349, 2_892_672, 2_845_340, 2_794_190, 2_740_752, 2_686_203, 2_631_409, 2_576_981,
    2_527_977, 2_474_911, 2_423_117, 2_369_252, 2_305_208, 2_248_161, 2_196_658, 2_140_725,
    2_085_963, 2_028_826, 1_968_723, 1_906_914, 1_844_331, 1_781_640, 1_724_718, 1_662_531,
    1_596_758, 1_528_705, 1_459_341, 1_389_357, 1_325_341, 1_254_848, 1_184_761, 1_110_398,
    1_064_016, 1_019_804, 936_873, 859_964, 773_973, 686_954, 592_737, 532_863, 489_232,
    390_906, 377_197, 256_743, 127_267, 0,
];

/// Critical values of Student's t distribution with 21 degrees of freedom.
pub const STUDENT_21: [i64; 78] = [
    4_492_860, 4_445_405, 4_399_443, 4_352_030, 4_296_184, 4_246_934, 4_202_883, 4_155_499,
    4_109_579, 4_062_178, 4_012_897, 3_962_853, 3_912_860, 3_863_484, 3_819_277, 3_771_681,
    3_722_156, 3_671_821, 3_621_492, 3_571_738, 3_527_154, 3_479_107, 3_432_452, 3_384_195,
    3_327_181, 3_276_740, 3_231_489, 3_182_668, 3_135_206, 3_086_053, 3_034_770, 2_982_498,
    2_930_075, 2_878_088, 2_831_360, 2_780_845, 2_728_051, 2_674_139, 2_619_965, 2_566_133,
    2_517_648, 2_465_127, 2_413_845, 2_360_495, 2_297_040, 2_240_495, 2_189_427, 2_133_949,
    2_079_614, 2_022_902, 1_963_226, 1_901_834, 1_839_651, 1_777_339, 1_720_743, 1_658_892,
    1_593_452, 1_525_721, 1_456_663, 1_386_963, 1_323_188, 1_252_940, 1_183_076, 1_108_928,
    1_062_670, 1_018_568, 935_827, 859_074, 773_235, 686_352, 592_260, 532_455, 488_871,
    390_637, 376_940, 256_580, 127_190, 0,
];

/// Critical values of Student's t distribution with 22 degrees of freedom.
pub const STUDENT_22: [i64; 78] = [
    4_451_993, 4_405_606, 4_360_664, 4_314_288, 4_259_644, 4_211_437, 4_168_303, 4_121_892,
    4_076_900, 4_030_442, 3_982_125, 3_933_042, 3_883_993, 3_835_532, 3_792_131, 3_745_386,
    3_696_731, 3_647_263, 3_597_784, 3_548_854, 3_504_992, 3_457_709, 3_411_782, 3_364_261,
    3_308_097, 3_258_390, 3_213_782, 3_165_641, 3_118_824, 3_070_324, 3_019_704, 2_968_091,
    2_916_309, 2_864_942, 2_818_756, 2_768_812, 2_716_596, 2_663_257, 2_609_639, 2_556_342,
    2_508_325, 2_456_293, 2_405_473, 2_352_587, 2_289_661, 2_233_568, 2_182_893, 2_127_824,
    2_073_873, 2_017_545, 1_958_254, 1_897_238, 1_835_417, 1_773_447, 1_717_144, 1_655_597,
    1_590_458, 1_523_019, 1_454_236, 1_384_793, 1_321_237, 1_251_211, 1_181_549, 1_107_595,
    1_061_449, 1_017_447, 934_878, 858_266, 772_566, 685_805, 591_827, 532_085, 488_543,
    390_394, 376_707, 256_432, 127_120, 0,
];

/// Critical values of Student's t distribution with 23 degrees of freedom.
pub const STUDENT_23: [i64; 78] = [
    4_415_205, 4_369_772, 4_325_743, 4_280_294, 4_226_725, 4_179_450, 4_137_138, 4_091_598,
    4_047_437, 4_001_824, 3_954_370, 3_906_150, 3_857_946, 3_810_306, 3_767_627, 3_721_647,
    3_673_773, 3_625_083, 3_576_367, 3_528_176, 3_484_964, 3_438_368, 3_393_095, 3_346_237,
    3_290_837, 3_241_790, 3_197_763, 3_150_233, 3_103_997, 3_056_084, 3_006_062, 2_955_043,
    2_903_841, 2_853_033, 2_807_336, 2_757_906, 2_706_213, 2_653_390, 2_600_276, 2_547_463,
    2_499_867, 2_448_277, 2_397_875, 2_345_408, 2_282_962, 2_227_278, 2_176_958, 2_122_261,
    2_068_658, 2_012_678, 1_953_736, 1_893_061, 1_831_567, 1_769_907, 1_713_872, 1_652_599,
    1_587_734, 1_520_559, 1_452_027, 1_382_819, 1_319_460, 1_249_636, 1_180_157, 1_106_381,
    1_060_337, 1_016_426, 934_013, 857_530, 771_956, 685_306, 591_431, 531_747, 488_243,
    390_171, 376_495, 256_297, 127_056, 0,
];

/// Critical values of Student's t distribution with 24 degrees of freedom.
pub const STUDENT_24: [i64; 78] = [
    4_381_917, 4_337_342, 4_294_133, 4_249_518, 4_196_916, 4_150_480, 4_108_908, 4_064_152,
    4_020_739, 3_975_886, 3_929_210, 3_881_767, 3_834_327, 3_787_426, 3_745_399, 3_700_108,
    3_652_939, 3_604_952, 3_556_925, 3_509_402, 3_466_777, 3_420_802, 3_376_119, 3_329_860,
    3_275_153, 3_226_703, 3_183_200, 3_136_224, 3_090_514, 3_043_133, 2_993_653, 2_943_171,
    2_892_495, 2_842_193, 2_796_940, 2_747_977, 2_696_757, 2_644_404, 2_591_746, 2_539_372,
    2_492_159, 2_440_972, 2_390_949, 2_338_864, 2_276_853, 2_221_542, 2_171_545, 2_117_185,
    2_063_899, 2_008_235, 1_949_611, 1_889_247, 1_828_051, 1_766_675, 1_710_882, 1_649_861,
    1_585_246, 1_518_312, 1_450_008, 1_381_013, 1_317_836, 1_248_195, 1_178_884, 1_105_270,
    1_059_319, 1_015_492, 933_222, 856_855, 771_398, 684_850, 591_069, 531_438, 487_969,
    389_967, 376_300, 256_173, 126_998, 0,
];

/// Critical values of Student's t distribution with 25 degrees of freedom.
pub const STUDENT_25: [i64; 78] = [
    4_351_654, 4_307_855, 4_265_386, 4_221_525, 4_169_797, 4_124_120, 4_083_217, 4_039_171,
    3_996_435, 3_952_271, 3_906_300, 3_859_560, 3_812_811, 3_766_581, 3_725_144, 3_680_479,
    3_633_949, 3_586_600, 3_539_198, 3_492_280, 3_450_189, 3_404_777, 3_360_631, 3_314_916,
    3_260_837, 3_212_930, 3_169_904, 3_123_431, 3_078_199, 3_031_303, 2_982_316, 2_932_324,
    2_882_126, 2_832_286, 2_787_436, 2_738_898, 2_688_110, 2_636_185, 2_583_944, 2_531_970,
    2_485_107, 2_434_287, 2_384_610, 2_332_873, 2_271_260, 2_216_288, 2_166_587, 2_112_535,
    2_059_539, 2_004_165, 1_945_831, 1_885_751, 1_824_828, 1_763_711, 1_708_141, 1_647_349,
    1_582_963, 1_516_250, 1_448_155, 1_379_356, 1_316_345, 1_246_873, 1_177_716, 1_104_250,
    1_058_384, 1_014_634, 932_495, 856_236, 770_885, 684_430, 590_737, 531_154, 487_717,
    389_780, 376_121, 256_060, 126_944, 0,
];

/// Critical values of Student's t distribution with 26 degrees of freedom.
pub const STUDENT_26: [i64; 78] = [
    4_324_023, 4_280_928, 4_239_132, 4_195_956, 4_145_022, 4_100_035, 4_059_740, 4_016_338,
    3_974_219, 3_930_681, 3_885_351, 3_839_251, 3_793_130, 3_747_511, 3_706_612, 3_662_516,
    3_616_568, 3_569_800, 3_522_968, 3_476_603, 3_434_997, 3_390_100, 3_346_443, 3_301_225,
    3_247_719, 3_200_308, 3_157_717, 3_111_704, 3_066_909, 3_020_455, 2_971_919, 2_922_374,
    2_872_613, 2_823_195, 2_778_715, 2_730_566, 2_680_173, 2_628_639, 2_576_779, 2_525_173,
    2_478_630, 2_428_145, 2_378_786, 2_327_368, 2_266_119, 2_211_460, 2_162_029, 2_108_260,
    2_055_529, 2_000_421, 1_942_354, 1_882_535, 1_821_863, 1_760_983, 1_705_618, 1_645_038,
    1_580_861, 1_514_351, 1_446_449, 1_377_831, 1_314_972, 1_245_655, 1_176_639, 1_103_310,
    1_057_523, 1_013_843, 931_824, 855_665, 770_412, 684_043, 590_430, 530_892, 487_485,
    389_607, 375_956, 255_955, 126_895, 0,
];

/// Critical values of Student's t distribution with 27 degrees of freedom.
pub const STUDENT_27: [i64; 78] = [
    4_298_696, 4_256_243, 4_215_060, 4_172_509, 4_122_300, 4_077_942, 4_038_202, 3_995_389,
    3_953_832, 3_910_866, 3_866_121, 3_820_607, 3_775_061, 3_730_000, 3_689_592, 3_646_017,
    3_600_601, 3_554_364, 3_508_054, 3_462_194, 3_421_034, 3_376_607, 3_333_398, 3_288_635,
    3_235_654, 3_188_698, 3_146_505, 3_100_914, 3_056_520, 3_010_472, 2_962_349, 2_913_215,
    2_863_855, 2_814_824, 2_770_683, 2_722_892, 2_672_862, 2_621_688, 2_570_178, 2_518_908,
    2_472_660, 2_422_484, 2_373_417, 2_322_292, 2_261_379, 2_207_006, 2_157_825, 2_104_316,
    2_051_831, 1_996_967, 1_939_146, 1_879_567, 1_819_126, 1_758_466, 1_703_288, 1_642_903,
    1_578_920, 1_512_597, 1_444_873, 1_376_421, 1_313_703, 1_244_529, 1_175_644, 1_102_441,
    1_056_727, 1_013_112, 931_205, 855_137, 769_974, 683_685, 590_146, 530_649, 487_270,
    389_448, 375_803, 255_858, 126_849, 0,
];

/// Critical values of Student's t distribution with 28 degrees of freedom.
pub const STUDENT_28: [i64; 78] = [
    4_275_398, 4_233_532, 4_192_911, 4_150_931, 4_101_386, 4_057_604, 4_018_373, 3_976_100,
    3_935_058, 3_892_617, 3_848_409, 3_803_431, 3_758_412, 3_713_863, 3_673_906, 3_630_810,
    3_585_883, 3_540_134, 3_494_302, 3_448_907, 3_408_155, 3_364_161, 3_321_365, 3_277_019,
    3_224_522, 3_177_983, 3_136_157, 3_090_954, 3_046_929, 3_001_254, 2_953_511, 2_904_755,
    2_855_765, 2_807_091, 2_763_262, 2_715_801, 2_666_105, 2_615_262, 2_564_076, 2_513_117,
    2_467_140, 2_417_250, 2_368_452, 2_317_598, 2_256_994, 2_202_886, 2_153_935, 2_100_667,
    2_048_407, 1_993_769, 1_936_175, 1_876_819, 1_816_592, 1_756_134, 1_701_131, 1_640_926,
    1_577_122, 1_510_973, 1_443_413, 1_375_114, 1_312_527, 1_243_486, 1_174_722, 1_101_636,
    1_055_989, 1_012_434, 930_630, 854_647, 769_568, 683_353, 589_883, 530_424, 487_070,
    389_299, 375_661, 255_768, 126_806, 0,
];

/// Critical values of Student's t distribution with 29 degrees of freedom.
pub const STUDENT_29: [i64; 78] = [
    4_253_894, 4_212_568, 4_172_463, 4_131_009, 4_082_074, 4_038_822, 4_000_059, 3_958_282,
    3_917_714, 3_875_755, 3_832_041, 3_787_557, 3_743_024, 3_698_946, 3_659_405, 3_616_749,
    3_572_272, 3_526_973, 3_481_582, 3_436_615, 3_396_240, 3_352_645, 3_310_229, 3_266_269,
    3_214_217, 3_168_064, 3_126_577, 3_081_731, 3_038_047, 2_992_717, 2_945_325, 2_896_919,
    2_848_270, 2_799_925, 2_756_386, 2_709_228, 2_659_842, 2_609_306, 2_558_418, 2_507_747,
    2_462_021, 2_412_395, 2_363_846, 2_313_243, 2_252_926, 2_199_063, 2_150_325, 2_097_280,
    2_045_230, 1_990_801, 1_933_418, 1_874_268, 1_814_238, 1_753_968, 1_699_127, 1_639_089,
    1_575_451, 1_509_463, 1_442_056, 1_373_900, 1_311_434, 1_242_516, 1_173_864, 1_100_887,
    1_055_302, 1_011_804, 930_095, 854_192, 769_191, 683_044, 589_637, 530_214, 486_885,
    389_161, 375_529, 255_684, 126_767, 0,
];

/// Critical values of Student's t distribution with 30 degrees of freedom.
pub const STUDENT_30: [i64; 78] = [
    4_233_986, 4_193_157, 4_153_528, 4_112_559, 4_064_186, 4_021_424, 3_983_092, 3_941_773,
    3_901_643, 3_860_129, 3_816_872, 3_772_843, 3_728_758, 3_685_116, 3_645_959, 3_603_709,
    3_559_649, 3_514_765, 3_469_782, 3_425_212, 3_385_185, 3_341_958, 3_299_894, 3_256_291,
    3_204_651, 3_158_855, 3_117_682, 3_073_167, 3_029_798, 2_984_788, 2_937_722, 2_889_639,
    2_841_306, 2_793_267, 2_749_996, 2_703_120, 2_654_021, 2_603_769, 2_553_158, 2_502_754,
    2_457_262, 2_407_880, 2_359_562, 2_309_192, 2_249_141, 2_195_506, 2_146_966, 2_094_128,
    2_042_272, 1_988_039, 1_930_851, 1_871_892, 1_812_047, 1_751_952, 1_697_261, 1_637_378,
    1_573_895, 1_508_057, 1_440_792, 1_372_769, 1_310_415, 1_241_612, 1_173_065, 1_100_189,
    1_054_662, 1_011_216, 929_597, 853_767, 768_839, 682_756, 589_409, 530_019, 486_711,
    389_032, 375_406, 255_605, 126_730, 0,
];

/// Critical values of Student's t distribution with 40 degrees of freedom.
pub const STUDENT_40: [i64; 78] = [
    4_094_207, 4_056_812, 4_020_469, 3_982_849, 3_938_368, 3_898_990, 3_863_646, 3_825_500,
    3_788_405, 3_749_981, 3_709_891, 3_669_031, 3_628_062, 3_587_451, 3_550_966, 3_511_551,
    3_470_392, 3_428_407, 3_386_273, 3_344_468, 3_306_878, 3_266_232, 3_226_628, 3_185_524,
    3_136_777, 3_093_483, 3_054_511, 3_012_324, 2_971_171, 2_928_407, 2_883_632, 2_837_828,
    2_791_725, 2_745_841, 2_704_459, 2_659_576, 2_612_504, 2_564_263, 2_515_613, 2_467_098,
    2_423_257, 2_375_611, 2_328_935, 2_280_216, 2_222_057, 2_170_041, 2_122_910, 2_071_545,
    2_021_075, 1_968_229, 1_912_436, 1_854_844, 1_796_314, 1_737_466, 1_683_851, 1_625_081,
    1_562_705, 1_497_938, 1_431_692, 1_364_622, 1_303_077, 1_235_097, 1_167_302, 1_095_153,
    1_050_046, 1_006_974, 925_999, 850_700, 766_294, 680_673, 587_756, 528_606, 485_458,
    388_100, 374_514, 255_039, 126_462, 0,
];

/// Critical values of Student's t distribution with 50 degrees of freedom.
pub const STUDENT_50: [i64; 78] = [
    4_014_047, 3_978_573, 3_944_070, 3_908_327, 3_866_030, 3_828_552, 3_794_888, 3_758_527,
    3_723_141, 3_686_460, 3_648_157, 3_609_087, 3_569_880, 3_530_984, 3_496_013, 3_458_205,
    3_418_693, 3_378_356, 3_337_842, 3_297_611, 3_261_409, 3_222_235, 3_184_036, 3_144_360,
    3_097_267, 3_055_406, 3_017_696, 2_976_845, 2_936_964, 2_895_491, 2_852_033, 2_807_542,
    2_762_724, 2_718_084, 2_677_793, 2_634_062, 2_588_162, 2_541_085, 2_493_572, 2_446_154,
    2_403_272, 2_356_635, 2_310_914, 2_263_157, 2_206_101, 2_155_030, 2_108_721, 2_058_218,
    2_008_559, 1_956_525, 1_901_550, 1_844_760, 1_787_001, 1_728_888, 1_675_905, 1_617_790,
    1_556_066, 1_491_932, 1_426_287, 1_359_780, 1_298_714, 1_231_222, 1_163_871, 1_092_154,
    1_047_295, 1_004_446, 923_853, 848_869, 764_775, 679_428, 586_767, 527_760, 484_708,
    387_542, 373_981, 254_699, 126_301, 0,
];

/// Critical values of Student's t distribution with 60 degrees of freedom.
pub const STUDENT_60: [i64; 78] = [
    3_962_089, 3_927_840, 3_894_512, 3_859_969, 3_819_067, 3_782_805, 3_750_216, 3_714_999,
    3_680_708, 3_645_144, 3_607_988, 3_570_066, 3_531_992, 3_494_198, 3_460_200, 3_423_427,
    3_384_976, 3_345_700, 3_306_230, 3_267_015, 3_231_709, 3_193_486, 3_156_195, 3_117_442,
    3_071_419, 3_030_487, 2_993_594, 2_953_608, 2_914_553, 2_873_917, 2_831_315, 2_787_677,
    2_743_695, 2_699_863, 2_660_283, 2_617_302, 2_572_166, 2_525_849, 2_479_077, 2_432_375,
    2_390_119, 2_344_142, 2_299_046, 2_251_918, 2_195_584, 2_145_132, 2_099_363, 2_049_424,
    2_000_298, 1_948_797, 1_894_359, 1_838_096, 1_780_846, 1_723_215, 1_670_649, 1_612_965,
    1_551_672, 1_487_955, 1_422_706, 1_356_571, 1_295_821, 1_228_651, 1_161_596, 1_090_164,
    1_045_469, 1_002_768, 922_428, 847_653, 763_766, 678_601, 586_110, 527_198, 484_210,
    387_170, 373_625, 254_473, 126_194, 0,
];

/// Critical values of Student's t distribution with 80 degrees of freedom.
pub const STUDENT_80: [i64; 78] = [
    3_898_758, 3_865_982, 3_834_066, 3_800_965, 3_761_743, 3_726_945, 3_695_652, 3_661_813,
    3_628_844, 3_594_628, 3_558_856, 3_522_323, 3_485_617, 3_449_156, 3_416_337, 3_380_816,
    3_343_650, 3_305_660, 3_267_457, 3_229_476, 3_195_258, 3_158_189, 3_122_002, 3_084_373,
    3_039_652, 2_999_849, 2_963_952, 2_925_021, 2_886_972, 2_847_359, 2_805_802, 2_763_205,
    2_720_244, 2_677_402, 2_638_691, 2_596_628, 2_552_428, 2_507_041, 2_461_179, 2_415_354,
    2_373_868, 2_328_700, 2_284_372, 2_238_018, 2_182_572, 2_132_882, 2_087_777, 2_038_534,
    1_990_063, 1_939_221, 1_885_445, 1_829_833, 1_773_210, 1_716_176, 1_664_125, 1_606_975,
    1_546_213, 1_483_013, 1_418_255, 1_352_582, 1_292_224, 1_225_453, 1_158_763, 1_087_686,
    1_043_195, 1_000_677, 920_652, 846_137, 762_507, 677_569, 585_290, 526_497, 483_587,
    386_707, 373_182, 254_191, 126_061, 0,
];

/// Critical values of Student's t distribution with 100 degrees of freedom.
pub const STUDENT_100: [i64; 78] = [
    3_861_600, 3_829_676, 3_798_579, 3_766_315, 3_728_068, 3_694_119, 3_663_578, 3_630_541,
    3_598_339, 3_564_907, 3_529_941, 3_494_216, 3_458_307, 3_422_623, 3_390_491, 3_355_701,
    3_319_284, 3_282_046, 3_244_583, 3_207_321, 3_173_739, 3_137_346, 3_101_805, 3_064_833,
    3_020_875, 2_981_735, 2_946_421, 2_908_110, 2_870_652, 2_831_639, 2_790_695, 2_748_711,
    2_706_350, 2_664_090, 2_625_891, 2_584_368, 2_540_720, 2_495_881, 2_450_556, 2_405_249,
    2_364_217, 2_319_528, 2_275_652, 2_229_757, 2_174_836, 2_125_596, 2_080_884, 2_032_054,
    1_983_972, 1_933_519, 1_880_136, 1_824_910, 1_768_659, 1_711_980, 1_660_234, 1_603_402,
    1_542_957, 1_480_063, 1_415_599, 1_350_200, 1_290_075, 1_223_543, 1_157_071, 1_086_204,
    1_041_836, 999_427, 919_590, 845_230, 761_753, 676_951, 584_799, 526_076, 483_214, 386_429,
    372_916, 254_022, 125_981, 0,
];

/// Critical values of Student's t distribution with 120 degrees of freedom.
pub const STUDENT_120: [i64; 78] = [
    3_837_171, 3_805_804, 3_775_241, 3_743_522, 3_705_911, 3_672_517, 3_642_467, 3_609_953,
    3_578_254, 3_545_334, 3_510_895, 3_475_698, 3_440_311, 3_405_136, 3_373_454, 3_339_141,
    3_303_216, 3_266_470, 3_229_492, 3_192_703, 3_159_539, 3_123_589, 3_088_472, 3_051_932,
    3_008_475, 2_969_769, 2_934_839, 2_896_934, 2_859_865, 2_821_247, 2_780_707, 2_739_126,
    2_697_161, 2_655_284, 2_617_421, 2_576_255, 2_532_970, 2_488_493, 2_443_521, 2_398_557,
    2_357_825, 2_313_451, 2_269_875, 2_224_281, 2_169_707, 2_120_765, 2_076_313, 2_027_755,
    1_979_930, 1_929_735, 1_876_613, 1_821_642, 1_765_638, 1_709_194, 1_657_651, 1_601_028,
    1_540_793, 1_478_104, 1_413_833, 1_348_616, 1_288_646, 1_222_272, 1_155_945, 1_085_219,
    1_040_932, 998_596, 918_883, 844_627, 761_252, 676_540, 584_472, 525_796, 482_966, 386_244,
    372_739, 253_910, 125_928, 0,
];

/// Critical values of Student's t distribution with 200 degrees of freedom.
pub const STUDENT_200: [i64; 78] = [
    3_789_121, 3_758_837, 3_729_315, 3_698_659, 3_662_289, 3_629_978, 3_600_887, 3_569_395,
    3_538_675, 3_506_757, 3_473_347, 3_439_184, 3_404_817, 3_370_637, 3_339_835, 3_306_460,
    3_271_497, 3_235_715, 3_199_688, 3_163_826, 3_131_480, 3_096_400, 3_062_115, 3_026_422,
    2_983_950, 2_946_099, 2_911_924, 2_874_819, 2_838_514, 2_800_673, 2_760_928, 2_720_141,
    2_678_954, 2_637_832, 2_600_634, 2_560_171, 2_517_603, 2_473_840, 2_429_567, 2_385_277,
    2_345_137, 2_301_387, 2_258_403, 2_213_407, 2_159_520, 2_111_167, 2_067_230, 2_019_212,
    1_971_896, 1_922_212, 1_869_606, 1_815_142, 1_759_627, 1_703_648, 1_652_508, 1_596_303,
    1_536_485, 1_474_200, 1_410_315, 1_345_460, 1_285_799, 1_219_740, 1_153_700, 1_083_254,
    1_039_128, 996_936, 917_473, 843_422, 760_251, 675_718, 583_819, 525_237, 482_470, 385_874,
    372_386, 253_684, 125_821, 0,
];

/// Critical values of Student's t distribution with 500 degrees of freedom.
pub const STUDENT_500: [i64; 78] = [
    3_746_779, 3_717_439, 3_688_822, 3_659_093, 3_623_804, 3_592_437, 3_564_183, 3_533_582,
    3_503_718, 3_472_675, 3_440_165, 3_406_905, 3_373_430, 3_340_122, 3_310_091, 3_277_536,
    3_243_416, 3_208_481, 3_173_288, 3_138_239, 3_106_612, 3_072_296, 3_038_742, 3_003_795,
    2_962_189, 2_925_091, 2_891_579, 2_855_180, 2_819_548, 2_782_392, 2_743_349, 2_703_262,
    2_662_763, 2_622_309, 2_585_698, 2_545_856, 2_503_922, 2_460_791, 2_417_136, 2_373_445,
    2_333_829, 2_290_632, 2_248_173, 2_203_707, 2_150_430, 2_102_601, 2_059_121, 2_011_582,
    1_964_720, 1_915_491, 1_863_343, 1_809_331, 1_754_251, 1_698_688, 1_647_907, 1_592_074,
    1_532_628, 1_470_705, 1_407_164, 1_342_633, 1_283_247, 1_217_469, 1_151_687, 1_081_491,
    1_037_509, 995_448, 916_207, 842_341, 759_352, 674_981, 583_232, 524_735, 482_024, 385_542,
    372_068, 253_482, 125_725, 0,
];

/// Critical values of Student's t distribution with 1000 degrees of freedom.
pub const STUDENT_1000: [i64; 78] = [
    3_732_852, 3_703_819, 3_675_498, 3_646_072, 3_611_136, 3_580_077, 3_552_097, 3_521_787,
    3_492_203, 3_461_446, 3_429_231, 3_396_267, 3_363_084, 3_330_060, 3_300_283, 3_267_997,
    3_234_153, 3_199_495, 3_164_575, 3_129_793, 3_098_402, 3_064_337, 3_031_024, 2_996_322,
    2_955_000, 2_918_149, 2_884_856, 2_848_688, 2_813_278, 2_776_347, 2_737_535, 2_697_679,
    2_657_406, 2_617_172, 2_580_755, 2_541_118, 2_499_393, 2_456_470, 2_413_019, 2_369_525,
    2_330_083, 2_287_069, 2_244_783, 2_200_492, 2_147_416, 2_099_760, 2_056_431, 2_009_052,
    1_962_339, 1_913_261, 1_861_265, 1_807_402, 1_752_467, 1_697_041, 1_646_379, 1_590_670,
    1_531_347, 1_469_543, 1_406_117, 1_341_693, 1_282_399, 1_216_714, 1_151_018, 1_080_905,
    1_036_971, 994_953, 915_786, 841_981, 759_053, 674_735, 583_037, 524_568, 481_875, 385_431,
    371_962, 253_415, 125_693, 0,
];

/// Whether a table runs along the grid from its largest value down to
/// zero.
pub open spec fn is_descending(table: Seq<i64>) -> bool {
    &&& table.len() == GRID_LEN
    &&& table[GRID_LEN - 1] == 0
    &&& forall|k: int| 0 <= k < GRID_LEN - 1 ==> #[trigger] table[k] >= table[k + 1]
}

/// The table of Student's t distribution for the degrees of freedom at
/// position `r` of `STUDENT_DF`.
#[verifier::opaque]
pub open spec fn student_table(r: int) -> Seq<i64> {
    if r == 0 {
        STUDENT_1@
    } else if r == 1 {
        STUDENT_2@
    } else if r == 2 {
        STUDENT_3@
    } else if r == 3 {
        STUDENT_4@
    } else if r == 4 {
        STUDENT_5@
    } else if r == 5 {
        STUDENT_6@
    } else if r == 6 {
        STUDENT_7@
    } else if r == 7 {
        STUDENT_8@
    } else if r == 8 {
        STUDENT_9@
    } else if r == 9 {
        STUDENT_10@
    } else if r == 10 {
        STUDENT_11@
    } else if r == 11 {
        STUDENT_12@
    } else if r == 12 {
        STUDENT_13@
    } else if r == 13 {
        STUDENT_14@
    } else if r == 14 {
        STUDENT_15@
    } else if r == 15 {
        STUDENT_16@
    } else if r == 16 {
        STUDENT_17@
    } else if r == 17 {
        STUDENT_18@
    } else if r == 18 {
        STUDENT_19@
    } else if r == 19 {
        STUDENT_20@
    } else if r == 20 {
        STUDENT_21@
    } else if r == 21 {
        STUDENT_22@
    } else if r == 22 {
        STUDENT_23@
    } else if r == 23 {
        STUDENT_24@
    } else if r == 24 {
        STUDENT_25@
    } else if r == 25 {
        STUDENT_26@
    } else if r == 26 {
        STUDENT_27@
    } else if r == 27 {
        STUDENT_28@
    } else if r == 28 {
        STUDENT_29@
    } else if r == 29 {
        STUDENT_30@
    } else if r == 30 {
        STUDENT_40@
    } else if r == 31 {
        STUDENT_50@
    } else if r == 32 {
        STUDENT_60@
    } else if r == 33 {
        STUDENT_80@
    } else if r == 34 {
        STUDENT_100@
    } else if r == 35 {
        STUDENT_120@
    } else if r == 36 {
        STUDENT_200@
    } else if r == 37 {
        STUDENT_500@
    } else {
        STUDENT_1000@
    }
}

/// The table of the normal distribution runs from its largest value down
/// to zero.
pub proof fn lemma_normal_descending()
    ensures
        is_descending(NORMAL@),
{
}

proof fn lemma_student_1_descending()
    ensures
        is_descending(STUDENT_1@),
{
}

proof fn lemma_student_2_descending()
    ensures
        is_descending(STUDENT_2@),
{
}

proof fn lemma_student_3_descending()
    ensures
        is_descending(STUDENT_3@),
{
}

proof fn lemma_student_4_descending()
    ensures
        is_descending(STUDENT_4@),
{
}

proof fn lemma_student_5_descending()
    ensures
        is_descending(STUDENT_5@),
{
}

proof fn lemma_student_6_descending()
    ensures
        is_descending(STUDENT_6@),
{
}

proof fn lemma_student_7_descending()
    ensures
        is_descending(STUDENT_7@),
{
}

proof fn lemma_student_8_descending()
    ensures
        is_descending(STUDENT_8@),
{
}

proof fn lemma_student_9_descending()
    ensures
        is_descending(STUDENT_9@),
{
}

proof fn lemma_student_10_descending()
    ensures
        is_descending(STUDENT_10@),
{
}

proof fn lemma_student_11_descending()
    ensures
        is_descending(STUDENT_11@),
{
}

proof fn lemma_student_12_descending()
    ensures
        is_descending(STUDENT_12@),
{
}

proof fn lemma_student_13_descending()
    ensures
        is_descending(STUDENT_13@),
{
}

proof fn lemma_student_14_descending()
    ensures
        is_descending(STUDENT_14@),
{
}

proof fn lemma_student_15_descending()
    ensures
        is_descending(STUDENT_15@),
{
}

proof fn lemma_student_16_descending()
    ensures
        is_descending(STUDENT_16@),
{
}

proof fn lemma_student_17_descending()
    ensures
        is_descending(STUDENT_17@),
{
}

proof fn lemma_student_18_descending()
    ensures
        is_descending(STUDENT_18@),
{
}

proof fn lemma_student_19_descending()
    ensures
        is_descending(STUDENT_19@),
{
}

proof fn lemma_student_20_descending()
    ensures
        is_descending(STUDENT_20@),
{
}

proof fn lemma_student_21_descending()
    ensures
        is_descending(STUDENT_21@),
{
}

proof fn lemma_student_22_descending()
    ensures
        is_descending(STUDENT_22@),
{
}

proof fn lemma_student_23_descending()
    ensures
        is_descending(STUDENT_23@),
{
}

proof fn lemma_student_24_descending()
    ensures
        is_descending(STUDENT_24@),
{
}

proof fn lemma_student_25_descending()
    ensures
        is_descending(STUDENT_25@),
{
}

proof fn lemma_student_26_descending()
    ensures
        is_descending(STUDENT_26@),
{
}

proof fn lemma_student_27_descending()
    ensures
        is_descending(STUDENT_27@),
{
}

proof fn lemma_student_28_descending()
    ensures
        is_descending(STUDENT_28@),
{
}

proof fn lemma_student_29_descending()
    ensures
        is_descending(STUDENT_29@),
{
}

proof fn lemma_student_30_descending()
    ensures
        is_descending(STUDENT_30@),
{
}

proof fn lemma_student_40_descending()
    ensures
        is_descending(STUDENT_40@),
{
}

proof fn lemma_student_50_descending()
    ensures
        is_descending(STUDENT_50@),
{
}

proof fn lemma_student_60_descending()
    ensures
        is_descending(STUDENT_60@),
{
}

proof fn lemma_student_80_descending()
    ensures
        is_descending(STUDENT_80@),
{
}

proof fn lemma_student_100_descending()
    ensures
        is_descending(STUDENT_100@),
{
}

proof fn lemma_student_120_descending()
    ensures
        is_descending(STUDENT_120@),
{
}

proof fn lemma_student_200_descending()
    ensures
        is_descending(STUDENT_200@),
{
}

proof fn lemma_student_500_descending()
    ensures
        is_descending(STUDENT_500@),
{
}

proof fn lemma_student_1000_descending()
    ensures
        is_descending(STUDENT_1000@),
{
}

/// Every table of Student's t distribution runs from its largest value
/// down to zero.
pub proof fn lemma_student_descending(r: int)
    ensures
        is_descending(student_table(r)),
{
    reveal(student_table);
    if r == 0 {
        lemma_student_1_descending();
    } else if r == 1 {
        lemma_student_2_descending();
    } else if r == 2 {
        lemma_student_3_descending();
    } else if r == 3 {
        lemma_student_4_descending();
    } else if r == 4 {
        lemma_student_5_descending();
    } else if r == 5 {
        lemma_student_6_descending();
    } else if r == 6 {
        lemma_student_7_descending();
    } else if r == 7 {
        lemma_student_8_descending();
    } else if r == 8 {
        lemma_student_9_descending();
    } else if r == 9 {
        lemma_student_10_descending();
    } else if r == 10 {
        lemma_student_11_descending();
    } else if r == 11 {
        lemma_student_12_descending();
    } else if r == 12 {
        lemma_student_13_descending();
    } else if r == 13 {
        lemma_student_14_descending();
    } else if r == 14 {
        lemma_student_15_descending();
    } else if r == 15 {
        lemma_student_16_descending();
    } else if r == 16 {
        lemma_student_17_descending();
    } else if r == 17 {
        lemma_student_18_descending();
    } else if r == 18 {
        lemma_student_19_descending();
    } else if r == 19 {
        lemma_student_20_descending();
    } else if r == 20 {
        lemma_student_21_descending();
    } else if r == 21 {
        lemma_student_22_descending();
    } else if r == 22 {
        lemma_student_23_descending();
    } else if r == 23 {
        lemma_student_24_descending();
    } else if r == 24 {
        lemma_student_25_descending();
    } else if r == 25 {
        lemma_student_26_descending();
    } else if r == 26 {
        lemma_student_27_descending();
    } else if r == 27 {
        lemma_student_28_descending();
    } else if r == 28 {
        lemma_student_29_descending();
    } else if r == 29 {
        lemma_student_30_descending();
    } else if r == 30 {
        lemma_student_40_descending();
    } else if r == 31 {
        lemma_student_50_descending();
    } else if r == 32 {
        lemma_student_60_descending();
    } else if r == 33 {
        lemma_student_80_descending();
    } else if r == 34 {
        lemma_student_100_descending();
    } else if r == 35 {
        lemma_student_120_descending();
    } else if r == 36 {
        lemma_student_200_descending();
    } else if r == 37 {
        lemma_student_500_descending();
    } else {
        lemma_student_1000_descending();
    }
}

/// Whether every entry of `high` is at least the entry of `low` at the
/// same position of the grid.
pub open spec fn dominates(high: Seq<i64>, low: Seq<i64>) -> bool {
    &&& high.len() == GRID_LEN
    &&& low.len() == GRID_LEN
    &&& forall|k: int| 0 <= k < GRID_LEN ==> #[trigger] high[k] >= low[k]
}

proof fn lemma_student_1_dominates()
    ensures
        dominates(STUDENT_1@, STUDENT_2@),
{
}

proof fn lemma_student_2_dominates()
    ensures
        dominates(STUDENT_2@, STUDENT_3@),
{
}

proof fn lemma_student_3_dominates()
    ensures
        dominates(STUDENT_3@, STUDENT_4@),
{
}

proof fn lemma_student_4_dominates()
    ensures
        dominates(STUDENT_4@, STUDENT_5@),
{
}

proof fn lemma_student_5_dominates()
    ensures
        dominates(STUDENT_5@, STUDENT_6@),
{
}

proof fn lemma_student_6_dominates()
    ensures
        dominates(STUDENT_6@, STUDENT_7@),
{
}

proof fn lemma_student_7_dominates()
    ensures
        dominates(STUDENT_7@, STUDENT_8@),
{
}

proof fn lemma_student_8_dominates()
    ensures
        dominates(STUDENT_8@, STUDENT_9@),
{
}

proof fn lemma_student_9_dominates()
    ensures
        dominates(STUDENT_9@, STUDENT_10@),
{
}

proof fn lemma_student_10_dominates()
    ensures
        dominates(STUDENT_10@, STUDENT_11@),
{
}

proof fn lemma_student_11_dominates()
    ensures
        dominates(STUDENT_11@, STUDENT_12@),
{
}

proof fn lemma_student_12_dominates()
    ensures
        dominates(STUDENT_12@, STUDENT_13@),
{
}

proof fn lemma_student_13_dominates()
    ensures
        dominates(STUDENT_13@, STUDENT_14@),
{
}

proof fn lemma_student_14_dominates()
    ensures
        dominates(STUDENT_14@, STUDENT_15@),
{
}

proof fn lemma_student_15_dominates()
    ensures
        dominates(STUDENT_15@, STUDENT_16@),
{
}

proof fn lemma_student_16_dominates()
    ensures
        dominates(STUDENT_16@, STUDENT_17@),
{
}

proof fn lemma_student_17_dominates()
    ensures
        dominates(STUDENT_17@, STUDENT_18@),
{
}

proof fn lemma_student_18_dominates()
    ensures
        dominates(STUDENT_18@, STUDENT_19@),
{
}

proof fn lemma_student_19_dominates()
    ensures
        dominates(STUDENT_19@, STUDENT_20@),
{
}

proof fn lemma_student_20_dominates()
    ensures
        dominates(STUDENT_20@, STUDENT_21@),
{
}

proof fn lemma_student_21_dominates()
    ensures
        dominates(STUDENT_21@, STUDENT_22@),
{
}

proof fn lemma_student_22_dominates()
    ensures
        dominates(STUDENT_22@, STUDENT_23@),
{
}

proof fn lemma_student_23_dominates()
    ensures
        dominates(STUDENT_23@, STUDENT_24@),
{
}

proof fn lemma_student_24_dominates()
    ensures
        dominates(STUDENT_24@, STUDENT_25@),
{
}

proof fn lemma_student_25_dominates()
    ensures
        dominates(STUDENT_25@, STUDENT_26@),
{
}

proof fn lemma_student_26_dominates()
    ensures
        dominates(STUDENT_26@, STUDENT_27@),
{
}

proof fn lemma_student_27_dominates()
    ensures
        dominates(STUDENT_27@, STUDENT_28@),
{
}

proof fn lemma_student_28_dominates()
    ensures
        dominates(STUDENT_28@, STUDENT_29@),
{
}

proof fn lemma_student_29_dominates()
    ensures
        dominates(STUDENT_29@, STUDENT_30@),
{
}

proof fn lemma_student_30_dominates()
    ensures
        dominates(STUDENT_30@, STUDENT_40@),
{
}

proof fn lemma_student_40_dominates()
    ensures
        dominates(STUDENT_40@, STUDENT_50@),
{
}

proof fn lemma_student_50_dominates()
    ensures
        dominates(STUDENT_50@, STUDENT_60@),
{
}

proof fn lemma_student_60_dominates()
    ensures
        dominates(STUDENT_60@, STUDENT_80@),
{
}

proof fn lemma_student_80_dominates()
    ensures
        dominates(STUDENT_80@, STUDENT_100@),
{
}

proof fn lemma_student_100_dominates()
    ensures
        dominates(STUDENT_100@, STUDENT_120@),
{
}

proof fn lemma_student_120_dominates()
    ensures
        dominates(STUDENT_120@, STUDENT_200@),
{
}

proof fn lemma_student_200_dominates()
    ensures
        dominates(STUDENT_200@, STUDENT_500@),
{
}

proof fn lemma_student_500_dominates()
    ensures
        dominates(STUDENT_500@, STUDENT_1000@),
{
}

/// The critical values of Student's t distribution with the most degrees
/// of freedom that are tabulated are at least those of the normal
/// distribution.
pub proof fn lemma_student_dominates_normal()
    ensures
        dominates(student_table(ROWS - 1), NORMAL@),
{
    reveal(student_table);
}

/// The critical values of Student's t distribution do not rise from one
/// tabulated number of degrees of freedom to the next.
pub proof fn lemma_student_dominates_next(r: int)
    requires
        0 <= r < ROWS - 1,
    ensures
        dominates(student_table(r), student_table(r + 1)),
{
    reveal(student_table);
    if r == 0 {
        lemma_student_1_dominates();
    } else if r == 1 {
        lemma_student_2_dominates();
    } else if r == 2 {
        lemma_student_3_dominates();
    } else if r == 3 {
        lemma_student_4_dominates();
    } else if r == 4 {
        lemma_student_5_dominates();
    } else if r == 5 {
        lemma_student_6_dominates();
    } else if r == 6 {
        lemma_student_7_dominates();
    } else if r == 7 {
        lemma_student_8_dominates();
    } else if r == 8 {
        lemma_student_9_dominates();
    } else if r == 9 {
        lemma_student_10_dominates();
    } else if r == 10 {
        lemma_student_11_dominates();
    } else if r == 11 {
        lemma_student_12_dominates();
    } else if r == 12 {
        lemma_student_13_dominates();
    } else if r == 13 {
        lemma_student_14_dominates();
    } else if r == 14 {
        lemma_student_15_dominates();
    } else if r == 15 {
        lemma_student_16_dominates();
    } else if r == 16 {
        lemma_student_17_dominates();
    } else if r == 17 {
        lemma_student_18_dominates();
    } else if r == 18 {
        lemma_student_19_dominates();
    } else if r == 19 {
        lemma_student_20_dominates();
    } else if r == 20 {
        lemma_student_21_dominates();
    } else if r == 21 {
        lemma_student_22_dominates();
    } else if r == 22 {
        lemma_student_23_dominates();
    } else if r == 23 {
        lemma_student_24_dominates();
    } else if r == 24 {
        lemma_student_25_dominates();
    } else if r == 25 {
        lemma_student_26_dominates();
    } else if r == 26 {
        lemma_student_27_dominates();
    } else if r == 27 {
        lemma_student_28_dominates();
    } else if r == 28 {
        lemma_student_29_dominates();
    } else if r == 29 {
        lemma_student_30_dominates();
    } else if r == 30 {
        lemma_student_40_dominates();
    } else if r == 31 {
        lemma_student_50_dominates();
    } else if r == 32 {
        lemma_student_60_dominates();
    } else if r == 33 {
        lemma_student_80_dominates();
    } else if r == 34 {
        lemma_student_100_dominates();
    } else if r == 35 {
        lemma_student_120_dominates();
    } else if r == 36 {
        lemma_student_200_dominates();
    } else {
        lemma_student_500_dominates();
    }
}

/// The table of Student's t distribution at position `r`.
pub fn student_row(r: usize) -> (table: &'static [i64; 78])
    requires
        r < ROWS,
    ensures
        table@ == student_table(r as int),
{
    proof {
        reveal(student_table);
    }
    match r {
        0 => &STUDENT_1,
        1 => &STUDENT_2,
        2 => &STUDENT_3,
        3 => &STUDENT_4,
        4 => &STUDENT_5,
        5 => &STUDENT_6,
        6 => &STUDENT_7,
        7 => &STUDENT_8,
        8 => &STUDENT_9,
        9 => &STUDENT_10,
        10 => &STUDENT_11,
        11 => &STUDENT_12,
        12 => &STUDENT_13,
        13 => &STUDENT_14,
        14 => &STUDENT_15,
        15 => &STUDENT_16,
        16 => &STUDENT_17,
        17 => &STUDENT_18,
        18 => &STUDENT_19,
        19 => &STUDENT_20,
        20 => &STUDENT_21,
        21 => &STUDENT_22,
        22 => &STUDENT_23,
        23 => &STUDENT_24,
        24 => &STUDENT_25,
        25 => &STUDENT_26,
        26 => &STUDENT_27,
        27 => &STUDENT_28,
        28 => &STUDENT_29,
        29 => &STUDENT_30,
        30 => &STUDENT_40,
        31 => &STUDENT_50,
        32 => &STUDENT_60,
        33 => &STUDENT_80,
        34 => &STUDENT_100,
        35 => &STUDENT_120,
        36 => &STUDENT_200,
        37 => &STUDENT_500,
        _ => &STUDENT_1000,
    }
}

} // verus!
