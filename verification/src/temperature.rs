//! The temperature fact: sensors in thousandths of a degree Celsius, the
//! grouping of raw readings into per-component averages, and the rendering
//! with one decimal place.

use vstd::prelude::*;

use crate::strutil::ascii_lower;
use crate::strutil::contains_seq;
use crate::strutil::dec_seq;
use crate::strutil::dec_str_u64;
use crate::strutil::digit_char;
use crate::strutil::lower_seq;
use crate::strutil::str_contains;

verus! {

/// One temperature sensor. The reading is kept in thousandths of a degree
/// Celsius, so that the arithmetic stays exact.
#[derive(Debug, Clone)]
pub struct TempSensor {
    pub label: String,
    pub milli_celsius: i64,
}

/// A reading in thousandths of a degree, as tenths of a degree, halves
/// rounded away from zero.
pub open spec fn deci_of(milli: int) -> int {
    if milli >= 0 {
        (milli + 50) / 100
    } else {
        -((-milli + 50) / 100)
    }
}

/// The line the formatter prints for one sensor: the label, then the
/// temperature with one decimal place and the degree mark.
pub open spec fn temp_seq(label: Seq<char>, milli: int) -> Seq<char> {
    let d = deci_of(milli);
    label + ": "@ + (if d < 0 {
        "-"@
    } else {
        Seq::<char>::empty()
    }) + dec_seq((if d < 0 {
        -d
    } else {
        d
    }) / 10) + "."@ + seq![digit_char((if d < 0 {
        -d
    } else {
        d
    }) % 10)] + "\u{b0}C"@
}

fn digit_of(d: u64) -> (r: &'static str)
    requires
        d < 10,
    ensures
        r@ == seq![digit_char(d as int)],
{
    let r: &'static str = match d {
        0 => "0",
        1 => "1",
        2 => "2",
        3 => "3",
        4 => "4",
        5 => "5",
        6 => "6",
        7 => "7",
        8 => "8",
        _ => "9",
    };
    proof {
        reveal_strlit("0");
        reveal_strlit("1");
        reveal_strlit("2");
        reveal_strlit("3");
        reveal_strlit("4");
        reveal_strlit("5");
        reveal_strlit("6");
        reveal_strlit("7");
        reveal_strlit("8");
        reveal_strlit("9");
        assert(r@ =~= seq![digit_char(d as int)]);
    }
    r
}

impl TempSensor {
    /// Renders the sensor line.
    pub fn render(&self) -> (r: String)
        requires
            i64::MIN + 50 < self.milli_celsius < i64::MAX - 50,
        ensures
            r@ == temp_seq(self.label@, self.milli_celsius as int),
    {
        let mut r: String = String::new();
        r.append(self.label.as_str());
        r.append(": ");
        let d: i64 = if self.milli_celsius >= 0 {
            (self.milli_celsius + 50) / 100
        } else {
            -((-self.milli_celsius + 50) / 100)
        };
        let a: i64 = if d < 0 {
            r.append("-");
            -d
        } else {
            d
        };
        r.append(dec_str_u64((a / 10) as u64).as_str());
        r.append(".");
        r.append(digit_of((a % 10) as u64));
        r.append("\u{b0}C");
        proof {
            assert(r@ =~= temp_seq(self.label@, self.milli_celsius as int));
        }
        r
    }
}

/// A management-interface reading in tenths of a Kelvin, as thousandths of
/// a degree Celsius.
pub open spec fn spec_kelvin_tenths_to_milli(k: int) -> int {
    100 * k - 273150
}

/// Converts a reading in tenths of a Kelvin to thousandths of a degree
/// Celsius.
pub fn kelvin_tenths_to_milli(k: u32) -> (m: i64)
    ensures
        m == spec_kelvin_tenths_to_milli(k as int),
{
    100 * (k as i64) - 273150
}

/// Whether a lower-cased sensor label names a processor sensor.
pub open spec fn cpu_like(l: Seq<char>) -> bool {
    contains_seq(l, "cpu"@) || contains_seq(l, "core"@) || contains_seq(l, "tsens"@)
        || contains_seq(l, "cluster"@) || contains_seq(l, "silver"@) || contains_seq(l, "gold"@)
        || contains_seq(l, "prime"@)
}

/// Whether a lower-cased sensor label names a graphics sensor.
pub open spec fn gpu_like(l: Seq<char>) -> bool {
    contains_seq(l, "gpu"@) || contains_seq(l, "gpuss"@) || contains_seq(l, "kgsl"@)
}

/// Whether a lower-cased sensor label names a battery sensor.
pub open spec fn battery_like(l: Seq<char>) -> bool {
    contains_seq(l, "battery"@) || contains_seq(l, "batt"@) || contains_seq(l, "charger"@)
}

/// Whether a raw reading is plausible: between freezing and 120 degrees.
pub open spec fn reading_valid(milli: int) -> bool {
    0 <= milli <= 120000
}

/// Whether a reading lands in the processor group.
pub open spec fn cpu_sel(r: (Seq<char>, int)) -> bool {
    reading_valid(r.1) && cpu_like(lower_seq(r.0))
}

/// Whether a reading lands in the graphics group: not claimed by the
/// processor group first.
pub open spec fn gpu_sel(r: (Seq<char>, int)) -> bool {
    reading_valid(r.1) && !cpu_like(lower_seq(r.0)) && gpu_like(lower_seq(r.0))
}

/// Whether a reading lands in the battery group: claimed by neither of the
/// two groups before it.
pub open spec fn battery_sel(r: (Seq<char>, int)) -> bool {
    reading_valid(r.1) && !cpu_like(lower_seq(r.0)) && !gpu_like(lower_seq(r.0)) && battery_like(
        lower_seq(r.0),
    )
}

/// The readings of the processor group, in order.
pub open spec fn cpu_group(rs: Seq<(Seq<char>, int)>) -> Seq<int>
    decreases rs.len(),
{
    if rs.len() == 0 {
        Seq::empty()
    } else {
        cpu_group(rs.drop_last()) + if cpu_sel(rs.last()) {
            seq![rs.last().1]
        } else {
            Seq::empty()
        }
    }
}

/// The readings of the graphics group, in order.
pub open spec fn gpu_group(rs: Seq<(Seq<char>, int)>) -> Seq<int>
    decreases rs.len(),
{
    if rs.len() == 0 {
        Seq::empty()
    } else {
        gpu_group(rs.drop_last()) + if gpu_sel(rs.last()) {
            seq![rs.last().1]
        } else {
            Seq::empty()
        }
    }
}

/// The readings of the battery group, in order.
pub open spec fn battery_group(rs: Seq<(Seq<char>, int)>) -> Seq<int>
    decreases rs.len(),
{
    if rs.len() == 0 {
        Seq::empty()
    } else {
        battery_group(rs.drop_last()) + if battery_sel(rs.last()) {
            seq![rs.last().1]
        } else {
            Seq::empty()
        }
    }
}

/// The sum of a group of readings.
pub open spec fn sum_of(g: Seq<int>) -> int
    decreases g.len(),
{
    if g.len() == 0 {
        0
    } else {
        sum_of(g.drop_last()) + g.last()
    }
}

/// The label of one averaged group.
pub open spec fn avg_label(kind: Seq<char>, n: int) -> Seq<char> {
    kind + " (avg of "@ + dec_seq(n) + " sensors)"@
}

/// The summary sensor of one group: its label and its truncated mean.
pub open spec fn avg_sensor(kind: Seq<char>, g: Seq<int>) -> Seq<(Seq<char>, int)> {
    if g.len() > 0 {
        seq![(avg_label(kind, g.len() as int), sum_of(g) / g.len() as int)]
    } else {
        Seq::empty()
    }
}

/// The view of the raw readings a caller hands in.
pub open spec fn readings_view(readings: Seq<(String, i64)>) -> Seq<(Seq<char>, int)> {
    readings.map_values(|p: (String, i64)| (p.0@, p.1 as int))
}

/// The view of the summary a caller gets back.
pub open spec fn sensors_view(sensors: Seq<TempSensor>) -> Seq<(Seq<char>, int)> {
    sensors.map_values(|s: TempSensor| (s.label@, s.milli_celsius as int))
}

fn ascii_lower_contains(label: &String, pat: &str) -> (r: bool)
    ensures
        r == contains_seq(lower_seq(label@), pat@),
{
    let low: String = ascii_lower(label.as_str());
    str_contains(low.as_str(), pat)
}

fn classify(label: &String) -> (r: (bool, bool, bool))
    ensures
        r.0 == cpu_like(lower_seq(label@)),
        r.1 == gpu_like(lower_seq(label@)),
        r.2 == battery_like(lower_seq(label@)),
{
    let is_cpu: bool = ascii_lower_contains(label, "cpu") || ascii_lower_contains(label, "core")
        || ascii_lower_contains(label, "tsens") || ascii_lower_contains(label, "cluster")
        || ascii_lower_contains(label, "silver") || ascii_lower_contains(label, "gold")
        || ascii_lower_contains(label, "prime");
    let is_gpu: bool = ascii_lower_contains(label, "gpu") || ascii_lower_contains(label, "gpuss")
        || ascii_lower_contains(label, "kgsl");
    let is_batt: bool = ascii_lower_contains(label, "battery") || ascii_lower_contains(
        label,
        "batt",
    ) || ascii_lower_contains(label, "charger");
    (is_cpu, is_gpu, is_batt)
}

/// Groups raw readings into processor, graphics and battery averages, in
/// that order, skipping implausible readings and unrecognized labels. Each
/// summary sensor's reading is the truncated mean of its group; a group
/// with no readings produces no sensor.
pub fn summarize_sensors(readings: &Vec<(String, i64)>) -> (r: Vec<TempSensor>)
    requires
        readings@.len() < 1000000,
    ensures
        sensors_view(r@) == avg_sensor("CPU"@, cpu_group(readings_view(readings@))) + avg_sensor(
            "GPU"@,
            gpu_group(readings_view(readings@)),
        ) + avg_sensor("Battery"@, battery_group(readings_view(readings@))),
        r@.len() <= 3,
{
    let ghost rs = readings_view(readings@);
    let n: usize = readings.len();
    let mut cpu_sum: i64 = 0;
    let mut cpu_n: usize = 0;
    let mut gpu_sum: i64 = 0;
    let mut gpu_n: usize = 0;
    let mut batt_sum: i64 = 0;
    let mut batt_n: usize = 0;
    let mut i: usize = 0;
    proof {
        assert(rs.take(0) =~= Seq::<(Seq<char>, int)>::empty());
    }
    while i < n
        invariant
            rs == readings_view(readings@),
            n == readings@.len(),
            n < 1000000,
            i <= n,
            cpu_n == cpu_group(rs.take(i as int)).len(),
            cpu_sum == sum_of(cpu_group(rs.take(i as int))),
            gpu_n == gpu_group(rs.take(i as int)).len(),
            gpu_sum == sum_of(gpu_group(rs.take(i as int))),
            batt_n == battery_group(rs.take(i as int)).len(),
            batt_sum == sum_of(battery_group(rs.take(i as int))),
            0 <= cpu_sum <= 120000 * cpu_n,
            0 <= gpu_sum <= 120000 * gpu_n,
            0 <= batt_sum <= 120000 * batt_n,
            cpu_n <= i && gpu_n <= i && batt_n <= i,
        decreases n - i,
    {
        proof {
            assert(rs.take(i + 1).drop_last() =~= rs.take(i as int));
            assert(rs.take(i + 1).last() == rs[i as int]);
            assert(rs[i as int] == (readings@[i as int].0@, readings@[i as int].1 as int));
        }
        let label: &String = &readings[i].0;
        let milli: i64 = readings[i].1;
        let (is_cpu, is_gpu, is_batt): (bool, bool, bool) = classify(label);
        if 0 <= milli && milli <= 120000 {
            if is_cpu {
                proof {
                    assert(cpu_group(rs.take(i + 1)) =~= cpu_group(rs.take(i as int)).push(
                        milli as int,
                    ));
                    assert(cpu_group(rs.take(i + 1)).drop_last() =~= cpu_group(rs.take(i as int)));
                }
                cpu_sum = cpu_sum + milli;
                cpu_n = cpu_n + 1;
            } else if is_gpu {
                proof {
                    assert(gpu_group(rs.take(i + 1)) =~= gpu_group(rs.take(i as int)).push(
                        milli as int,
                    ));
                    assert(gpu_group(rs.take(i + 1)).drop_last() =~= gpu_group(rs.take(i as int)));
                }
                gpu_sum = gpu_sum + milli;
                gpu_n = gpu_n + 1;
            } else if is_batt {
                proof {
                    assert(battery_group(rs.take(i + 1)) =~= battery_group(rs.take(i as int)).push(
                        milli as int,
                    ));
                    assert(battery_group(rs.take(i + 1)).drop_last() =~= battery_group(
                        rs.take(i as int),
                    ));
                }
                batt_sum = batt_sum + milli;
                batt_n = batt_n + 1;
            }
        }
        i = i + 1;
    }
    proof {
        assert(rs.take(n as int) =~= rs);
    }
    let mut out: Vec<TempSensor> = Vec::new();
    if cpu_n > 0 {
        let mut label: String = String::from_str("CPU (avg of ");
        label.append(dec_str_u64(cpu_n as u64).as_str());
        label.append(" sensors)");
        proof {
            reveal_strlit("CPU (avg of ");
            reveal_strlit("CPU");
            reveal_strlit(" (avg of ");
            assert(label@ =~= avg_label("CPU"@, cpu_n as int));
        }
        out.push(TempSensor { label, milli_celsius: cpu_sum / (cpu_n as i64) });
    }
    if gpu_n > 0 {
        let mut label: String = String::from_str("GPU (avg of ");
        label.append(dec_str_u64(gpu_n as u64).as_str());
        label.append(" sensors)");
        proof {
            reveal_strlit("GPU (avg of ");
            reveal_strlit("GPU");
            reveal_strlit(" (avg of ");
            assert(label@ =~= avg_label("GPU"@, gpu_n as int));
        }
        out.push(TempSensor { label, milli_celsius: gpu_sum / (gpu_n as i64) });
    }
    if batt_n > 0 {
        let mut label: String = String::from_str("Battery (avg of ");
        label.append(dec_str_u64(batt_n as u64).as_str());
        label.append(" sensors)");
        proof {
            reveal_strlit("Battery (avg of ");
            reveal_strlit("Battery");
            reveal_strlit(" (avg of ");
            assert(label@ =~= avg_label("Battery"@, batt_n as int));
        }
        out.push(TempSensor { label, milli_celsius: batt_sum / (batt_n as i64) });
    }
    proof {
        assert(sensors_view(out@) =~= avg_sensor("CPU"@, cpu_group(rs)) + avg_sensor(
            "GPU"@,
            gpu_group(rs),
        ) + avg_sensor("Battery"@, battery_group(rs)));
    }
    out
}

} // verus!
