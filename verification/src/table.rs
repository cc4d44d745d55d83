//! The embedded table of two-tailed critical values.
//!
//! Rows are indexed by integer degrees of freedom 1 through 100; any other
//! row index falls back to the standard-normal approximation row, which is
//! the documented clamping rule for degrees of freedom beyond the table's
//! range. Columns are the six supported confidence levels, in the order of
//! [`Confidence`]'s variants. Every entry is the Student's t (or, for the
//! fallback row, standard normal) quantile at `1 - alpha / 2`, in units of
//! `1 / SCALE` (four decimal digits).

use vstd::prelude::*;

use crate::confidence::Confidence;

verus! {

/// The row of critical values for the given degrees of freedom, at the six
/// confidence levels in variant order, scaled by `SCALE`.
pub open spec fn spec_t_row(df: int) -> (int, int, int, int, int, int) {
    if df == 1 {
        (30777, 63138, 127062, 318205, 636567, 1273213)
    } else if df == 2 {
        (18856, 29200, 43027, 69646, 99248, 140890)
    } else if df == 3 {
        (16377, 23534, 31824, 45407, 58409, 74533)
    } else if df == 4 {
        (15332, 21318, 27764, 37469, 46041, 55976)
    } else if df == 5 {
        (14759, 20150, 25706, 33649, 40321, 47733)
    } else if df == 6 {
        (14398, 19432, 24469, 31427, 37074, 43168)
    } else if df == 7 {
        (14149, 18946, 23646, 29980, 34995, 40293)
    } else if df == 8 {
        (13968, 18595, 23060, 28965, 33554, 38325)
    } else if df == 9 {
        (13830, 18331, 22622, 28214, 32498, 36897)
    } else if df == 10 {
        (13722, 18125, 22281, 27638, 31693, 35814)
    } else if df == 11 {
        (13634, 17959, 22010, 27181, 31058, 34966)
    } else if df == 12 {
        (13562, 17823, 21788, 26810, 30545, 34284)
    } else if df == 13 {
        (13502, 17709, 21604, 26503, 30123, 33725)
    } else if df == 14 {
        (13450, 17613, 21448, 26245, 29768, 33257)
    } else if df == 15 {
        (13406, 17531, 21314, 26025, 29467, 32860)
    } else if df == 16 {
        (13368, 17459, 21199, 25835, 29208, 32520)
    } else if df == 17 {
        (13334, 17396, 21098, 25669, 28982, 32224)
    } else if df == 18 {
        (13304, 17341, 21009, 25524, 28784, 31966)
    } else if df == 19 {
        (13277, 17291, 20930, 25395, 28609, 31737)
    } else if df == 20 {
        (13253, 17247, 20860, 25280, 28453, 31534)
    } else if df == 21 {
        (13232, 17207, 20796, 25176, 28314, 31352)
    } else if df == 22 {
        (13212, 17171, 20739, 25083, 28188, 31188)
    } else if df == 23 {
        (13195, 17139, 20687, 24999, 28073, 31040)
    } else if df == 24 {
        (13178, 17109, 20639, 24922, 27969, 30905)
    } else if df == 25 {
        (13163, 17081, 20595, 24851, 27874, 30782)
    } else if df == 26 {
        (13150, 17056, 20555, 24786, 27787, 30669)
    } else if df == 27 {
        (13137, 17033, 20518, 24727, 27707, 30565)
    } else if df == 28 {
        (13125, 17011, 20484, 24671, 27633, 30469)
    } else if df == 29 {
        (13114, 16991, 20452, 24620, 27564, 30380)
    } else if df == 30 {
        (13104, 16973, 20423, 24573, 27500, 30298)
    } else if df == 31 {
        (13095, 16955, 20395, 24528, 27440, 30221)
    } else if df == 32 {
        (13086, 16939, 20369, 24487, 27385, 30149)
    } else if df == 33 {
        (13077, 16924, 20345, 24448, 27333, 30082)
    } else if df == 34 {
        (13070, 16909, 20322, 24411, 27284, 30020)
    } else if df == 35 {
        (13062, 16896, 20301, 24377, 27238, 29960)
    } else if df == 36 {
        (13055, 16883, 20281, 24345, 27195, 29905)
    } else if df == 37 {
        (13049, 16871, 20262, 24314, 27154, 29852)
    } else if df == 38 {
        (13042, 16860, 20244, 24286, 27116, 29803)
    } else if df == 39 {
        (13036, 16849, 20227, 24258, 27079, 29756)
    } else if df == 40 {
        (13031, 16839, 20211, 24233, 27045, 29712)
    } else if df == 41 {
        (13025, 16829, 20195, 24208, 27012, 29670)
    } else if df == 42 {
        (13020, 16820, 20181, 24185, 26981, 29630)
    } else if df == 43 {
        (13016, 16811, 20167, 24163, 26951, 29592)
    } else if df == 44 {
        (13011, 16802, 20154, 24141, 26923, 29555)
    } else if df == 45 {
        (13006, 16794, 20141, 24121, 26896, 29521)
    } else if df == 46 {
        (13002, 16787, 20129, 24102, 26870, 29488)
    } else if df == 47 {
        (12998, 16779, 20117, 24083, 26846, 29456)
    } else if df == 48 {
        (12994, 16772, 20106, 24066, 26822, 29426)
    } else if df == 49 {
        (12991, 16766, 20096, 24049, 26800, 29397)
    } else if df == 50 {
        (12987, 16759, 20086, 24033, 26778, 29370)
    } else if df == 51 {
        (12984, 16753, 20076, 24017, 26757, 29343)
    } else if df == 52 {
        (12980, 16747, 20066, 24002, 26737, 29318)
    } else if df == 53 {
        (12977, 16741, 20057, 23988, 26718, 29293)
    } else if df == 54 {
        (12974, 16736, 20049, 23974, 26700, 29270)
    } else if df == 55 {
        (12971, 16730, 20040, 23961, 26682, 29247)
    } else if df == 56 {
        (12969, 16725, 20032, 23948, 26665, 29225)
    } else if df == 57 {
        (12966, 16720, 20025, 23936, 26649, 29204)
    } else if df == 58 {
        (12963, 16716, 20017, 23924, 26633, 29184)
    } else if df == 59 {
        (12961, 16711, 20010, 23912, 26618, 29164)
    } else if df == 60 {
        (12958, 16706, 20003, 23901, 26603, 29146)
    } else if df == 61 {
        (12956, 16702, 19996, 23890, 26589, 29127)
    } else if df == 62 {
        (12954, 16698, 19990, 23880, 26575, 29110)
    } else if df == 63 {
        (12951, 16694, 19983, 23870, 26561, 29093)
    } else if df == 64 {
        (12949, 16690, 19977, 23860, 26549, 29076)
    } else if df == 65 {
        (12947, 16686, 19971, 23851, 26536, 29060)
    } else if df == 66 {
        (12945, 16683, 19966, 23842, 26524, 29045)
    } else if df == 67 {
        (12943, 16679, 19960, 23833, 26512, 29030)
    } else if df == 68 {
        (12941, 16676, 19955, 23824, 26501, 29015)
    } else if df == 69 {
        (12939, 16672, 19949, 23816, 26490, 29001)
    } else if df == 70 {
        (12938, 16669, 19944, 23808, 26479, 28987)
    } else if df == 71 {
        (12936, 16666, 19939, 23800, 26469, 28974)
    } else if df == 72 {
        (12934, 16663, 19935, 23793, 26459, 28961)
    } else if df == 73 {
        (12933, 16660, 19930, 23785, 26449, 28949)
    } else if df == 74 {
        (12931, 16657, 19925, 23778, 26439, 28936)
    } else if df == 75 {
        (12929, 16654, 19921, 23771, 26430, 28924)
    } else if df == 76 {
        (12928, 16652, 19917, 23764, 26421, 28913)
    } else if df == 77 {
        (12926, 16649, 19913, 23758, 26412, 28902)
    } else if df == 78 {
        (12925, 16646, 19908, 23751, 26403, 28891)
    } else if df == 79 {
        (12924, 16644, 19905, 23745, 26395, 28880)
    } else if df == 80 {
        (12922, 16641, 19901, 23739, 26387, 28870)
    } else if df == 81 {
        (12921, 16639, 19897, 23733, 26379, 28860)
    } else if df == 82 {
        (12920, 16636, 19893, 23727, 26371, 28850)
    } else if df == 83 {
        (12918, 16634, 19890, 23721, 26364, 28840)
    } else if df == 84 {
        (12917, 16632, 19886, 23716, 26356, 28831)
    } else if df == 85 {
        (12916, 16630, 19883, 23710, 26349, 28822)
    } else if df == 86 {
        (12915, 16628, 19879, 23705, 26342, 28813)
    } else if df == 87 {
        (12914, 16626, 19876, 23700, 26335, 28804)
    } else if df == 88 {
        (12912, 16624, 19873, 23695, 26329, 28795)
    } else if df == 89 {
        (12911, 16622, 19870, 23690, 26322, 28787)
    } else if df == 90 {
        (12910, 16620, 19867, 23685, 26316, 28779)
    } else if df == 91 {
        (12909, 16618, 19864, 23680, 26309, 28771)
    } else if df == 92 {
        (12908, 16616, 19861, 23676, 26303, 28763)
    } else if df == 93 {
        (12907, 16614, 19858, 23671, 26297, 28755)
    } else if df == 94 {
        (12906, 16612, 19855, 23667, 26291, 28748)
    } else if df == 95 {
        (12905, 16611, 19853, 23662, 26286, 28741)
    } else if df == 96 {
        (12904, 16609, 19850, 23658, 26280, 28734)
    } else if df == 97 {
        (12903, 16607, 19847, 23654, 26275, 28727)
    } else if df == 98 {
        (12902, 16606, 19845, 23650, 26269, 28720)
    } else if df == 99 {
        (12902, 16604, 19842, 23646, 26264, 28713)
    } else if df == 100 {
        (12901, 16602, 19840, 23642, 26259, 28707)
    } else {
        (12816, 16449, 19600, 23263, 25758, 28070)
    }
}


/// The critical value for the given degrees of freedom and confidence
/// level, scaled by `SCALE`.
pub open spec fn spec_t_at(df: int, c: Confidence) -> int {
    let row = spec_t_row(df);
    match c {
        Confidence::P80 => row.0,
        Confidence::P90 => row.1,
        Confidence::P95 => row.2,
        Confidence::P98 => row.3,
        Confidence::P99 => row.4,
        Confidence::P995 => row.5,
    }
}

/// Within every row, the critical values grow with the confidence level,
/// are positive, and never exceed the table's largest entry. This is what
/// makes the critical value of a comparison monotone in the confidence
/// level.
pub proof fn lemma_t_row_ordered(df: int)
    ensures
        0 < spec_t_row(df).0,
        spec_t_row(df).0 <= spec_t_row(df).1,
        spec_t_row(df).1 <= spec_t_row(df).2,
        spec_t_row(df).2 <= spec_t_row(df).3,
        spec_t_row(df).3 <= spec_t_row(df).4,
        spec_t_row(df).4 <= spec_t_row(df).5,
        spec_t_row(df).5 <= 1273213,
{
}

/// Every entry for at least two degrees of freedom is at most the largest
/// entry of the two-degrees row; two is the smallest degrees of freedom a
/// comparison of two samples of two or more measurements can produce.
pub proof fn lemma_t_at_bounded(df: int, c: Confidence)
    ensures
        0 < spec_t_at(df, c) <= 1273213,
        df >= 2 ==> spec_t_at(df, c) <= 140890,
{
    lemma_t_row_ordered(df);
}

/// Looks up the critical value for the given degrees of freedom and
/// confidence level, scaled by `SCALE`.
pub fn t_value(df: u64, c: Confidence) -> (r: u64)
    ensures
        r as int == spec_t_at(df as int, c),
{
    let row = t_row(df);
    match c {
        Confidence::P80 => row.0,
        Confidence::P90 => row.1,
        Confidence::P95 => row.2,
        Confidence::P98 => row.3,
        Confidence::P99 => row.4,
        Confidence::P995 => row.5,
    }
}

/// The executable table row for the given degrees of freedom; agrees with
/// [`spec_t_row`] entry by entry.
#[verifier::rlimit(100)]
fn t_row(df: u64) -> (r: (u64, u64, u64, u64, u64, u64))
    ensures
        r.0 as int == spec_t_row(df as int).0,
        r.1 as int == spec_t_row(df as int).1,
        r.2 as int == spec_t_row(df as int).2,
        r.3 as int == spec_t_row(df as int).3,
        r.4 as int == spec_t_row(df as int).4,
        r.5 as int == spec_t_row(df as int).5,
{
    if df == 1 {
        (30777, 63138, 127062, 318205, 636567, 1273213)
    } else if df == 2 {
        (18856, 29200, 43027, 69646, 99248, 140890)
    } else if df == 3 {
        (16377, 23534, 31824, 45407, 58409, 74533)
    } else if df == 4 {
        (15332, 21318, 27764, 37469, 46041, 55976)
    } else if df == 5 {
        (14759, 20150, 25706, 33649, 40321, 47733)
    } else if df == 6 {
        (14398, 19432, 24469, 31427, 37074, 43168)
    } else if df == 7 {
        (14149, 18946, 23646, 29980, 34995, 40293)
    } else if df == 8 {
        (13968, 18595, 23060, 28965, 33554, 38325)
    } else if df == 9 {
        (13830, 18331, 22622, 28214, 32498, 36897)
    } else if df == 10 {
        (13722, 18125, 22281, 27638, 31693, 35814)
    } else if df == 11 {
        (13634, 17959, 22010, 27181, 31058, 34966)
    } else if df == 12 {
        (13562, 17823, 21788, 26810, 30545, 34284)
    } else if df == 13 {
        (13502, 17709, 21604, 26503, 30123, 33725)
    } else if df == 14 {
        (13450, 17613, 21448, 26245, 29768, 33257)
    } else if df == 15 {
        (13406, 17531, 21314, 26025, 29467, 32860)
    } else if df == 16 {
        (13368, 17459, 21199, 25835, 29208, 32520)
    } else if df == 17 {
        (13334, 17396, 21098, 25669, 28982, 32224)
    } else if df == 18 {
        (13304, 17341, 21009, 25524, 28784, 31966)
    } else if df == 19 {
        (13277, 17291, 20930, 25395, 28609, 31737)
    } else if df == 20 {
        (13253, 17247, 20860, 25280, 28453, 31534)
    } else if df == 21 {
        (13232, 17207, 20796, 25176, 28314, 31352)
    } else if df == 22 {
        (13212, 17171, 20739, 25083, 28188, 31188)
    } else if df == 23 {
        (13195, 17139, 20687, 24999, 28073, 31040)
    } else if df == 24 {
        (13178, 17109, 20639, 24922, 27969, 30905)
    } else if df == 25 {
        (13163, 17081, 20595, 24851, 27874, 30782)
    } else if df == 26 {
        (13150, 17056, 20555, 24786, 27787, 30669)
    } else if df == 27 {
        (13137, 17033, 20518, 24727, 27707, 30565)
    } else if df == 28 {
        (13125, 17011, 20484, 24671, 27633, 30469)
    } else if df == 29 {
        (13114, 16991, 20452, 24620, 27564, 30380)
    } else if df == 30 {
        (13104, 16973, 20423, 24573, 27500, 30298)
    } else if df == 31 {
        (13095, 16955, 20395, 24528, 27440, 30221)
    } else if df == 32 {
        (13086, 16939, 20369, 24487, 27385, 30149)
    } else if df == 33 {
        (13077, 16924, 20345, 24448, 27333, 30082)
    } else if df == 34 {
        (13070, 16909, 20322, 24411, 27284, 30020)
    } else if df == 35 {
        (13062, 16896, 20301, 24377, 27238, 29960)
    } else if df == 36 {
        (13055, 16883, 20281, 24345, 27195, 29905)
    } else if df == 37 {
        (13049, 16871, 20262, 24314, 27154, 29852)
    } else if df == 38 {
        (13042, 16860, 20244, 24286, 27116, 29803)
    } else if df == 39 {
        (13036, 16849, 20227, 24258, 27079, 29756)
    } else if df == 40 {
        (13031, 16839, 20211, 24233, 27045, 29712)
    } else if df == 41 {
        (13025, 16829, 20195, 24208, 27012, 29670)
    } else if df == 42 {
        (13020, 16820, 20181, 24185, 26981, 29630)
    } else if df == 43 {
        (13016, 16811, 20167, 24163, 26951, 29592)
    } else if df == 44 {
        (13011, 16802, 20154, 24141, 26923, 29555)
    } else if df == 45 {
        (13006, 16794, 20141, 24121, 26896, 29521)
    } else if df == 46 {
        (13002, 16787, 20129, 24102, 26870, 29488)
    } else if df == 47 {
        (12998, 16779, 20117, 24083, 26846, 29456)
    } else if df == 48 {
        (12994, 16772, 20106, 24066, 26822, 29426)
    } else if df == 49 {
        (12991, 16766, 20096, 24049, 26800, 29397)
    } else if df == 50 {
        (12987, 16759, 20086, 24033, 26778, 29370)
    } else if df == 51 {
        (12984, 16753, 20076, 24017, 26757, 29343)
    } else if df == 52 {
        (12980, 16747, 20066, 24002, 26737, 29318)
    } else if df == 53 {
        (12977, 16741, 20057, 23988, 26718, 29293)
    } else if df == 54 {
        (12974, 16736, 20049, 23974, 26700, 29270)
    } else if df == 55 {
        (12971, 16730, 20040, 23961, 26682, 29247)
    } else if df == 56 {
        (12969, 16725, 20032, 23948, 26665, 29225)
    } else if df == 57 {
        (12966, 16720, 20025, 23936, 26649, 29204)
    } else if df == 58 {
        (12963, 16716, 20017, 23924, 26633, 29184)
    } else if df == 59 {
        (12961, 16711, 20010, 23912, 26618, 29164)
    } else if df == 60 {
        (12958, 16706, 20003, 23901, 26603, 29146)
    } else if df == 61 {
        (12956, 16702, 19996, 23890, 26589, 29127)
    } else if df == 62 {
        (12954, 16698, 19990, 23880, 26575, 29110)
    } else if df == 63 {
        (12951, 16694, 19983, 23870, 26561, 29093)
    } else if df == 64 {
        (12949, 16690, 19977, 23860, 26549, 29076)
    } else if df == 65 {
        (12947, 16686, 19971, 23851, 26536, 29060)
    } else if df == 66 {
        (12945, 16683, 19966, 23842, 26524, 29045)
    } else if df == 67 {
        (12943, 16679, 19960, 23833, 26512, 29030)
    } else if df == 68 {
        (12941, 16676, 19955, 23824, 26501, 29015)
    } else if df == 69 {
        (12939, 16672, 19949, 23816, 26490, 29001)
    } else if df == 70 {
        (12938, 16669, 19944, 23808, 26479, 28987)
    } else if df == 71 {
        (12936, 16666, 19939, 23800, 26469, 28974)
    } else if df == 72 {
        (12934, 16663, 19935, 23793, 26459, 28961)
    } else if df == 73 {
        (12933, 16660, 19930, 23785, 26449, 28949)
    } else if df == 74 {
        (12931, 16657, 19925, 23778, 26439, 28936)
    } else if df == 75 {
        (12929, 16654, 19921, 23771, 26430, 28924)
    } else if df == 76 {
        (12928, 16652, 19917, 23764, 26421, 28913)
    } else if df == 77 {
        (12926, 16649, 19913, 23758, 26412, 28902)
    } else if df == 78 {
        (12925, 16646, 19908, 23751, 26403, 28891)
    } else if df == 79 {
        (12924, 16644, 19905, 23745, 26395, 28880)
    } else if df == 80 {
        (12922, 16641, 19901, 23739, 26387, 28870)
    } else if df == 81 {
        (12921, 16639, 19897, 23733, 26379, 28860)
    } else if df == 82 {
        (12920, 16636, 19893, 23727, 26371, 28850)
    } else if df == 83 {
        (12918, 16634, 19890, 23721, 26364, 28840)
    } else if df == 84 {
        (12917, 16632, 19886, 23716, 26356, 28831)
    } else if df == 85 {
        (12916, 16630, 19883, 23710, 26349, 28822)
    } else if df == 86 {
        (12915, 16628, 19879, 23705, 26342, 28813)
    } else if df == 87 {
        (12914, 16626, 19876, 23700, 26335, 28804)
    } else if df == 88 {
        (12912, 16624, 19873, 23695, 26329, 28795)
    } else if df == 89 {
        (12911, 16622, 19870, 23690, 26322, 28787)
    } else if df == 90 {
        (12910, 16620, 19867, 23685, 26316, 28779)
    } else if df == 91 {
        (12909, 16618, 19864, 23680, 26309, 28771)
    } else if df == 92 {
        (12908, 16616, 19861, 23676, 26303, 28763)
    } else if df == 93 {
        (12907, 16614, 19858, 23671, 26297, 28755)
    } else if df == 94 {
        (12906, 16612, 19855, 23667, 26291, 28748)
    } else if df == 95 {
        (12905, 16611, 19853, 23662, 26286, 28741)
    } else if df == 96 {
        (12904, 16609, 19850, 23658, 26280, 28734)
    } else if df == 97 {
        (12903, 16607, 19847, 23654, 26275, 28727)
    } else if df == 98 {
        (12902, 16606, 19845, 23650, 26269, 28720)
    } else if df == 99 {
        (12902, 16604, 19842, 23646, 26264, 28713)
    } else if df == 100 {
        (12901, 16602, 19840, 23642, 26259, 28707)
    } else {
        (12816, 16449, 19600, 23263, 25758, 28070)
    }
}

} // verus!
