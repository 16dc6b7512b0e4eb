//! Temperature monitoring of the motor winding and of the controller die.
//!
//! Temperatures are held in units of two degrees Celsius, so that the
//! whole range fits a Q8.8 number.

use vstd::prelude::*;
use crate::filter::Filter;
use crate::filter::filter_buf;
use crate::filter::filter_out;
use crate::fixpt::Fixpt;
use crate::fixpt::q_div;
use crate::fixpt::q_mul;
use crate::fixpt::q_sub;
use crate::q7p8::curve_increasing;
use crate::q7p8::curve_lin_inter;
use crate::q7p8::curve_steps_divisible;
use crate::q7p8::curve_value;
use crate::q7p8::q7p8_div;
use crate::q7p8::q7p8_from_fraction;
use crate::q7p8::q7p8_mul;
use crate::q7p8::q7p8_sub;
use crate::shutoff::Shutoff;

verus! {

/// Raw value of the series resistor in kiloohms (10).
pub const R1_Q: i16 = 2560;

/// Raw value of the converter's reference voltage in volts (5).
pub const ADC_UREF_Q: i16 = 1280;

/// The converter's reference voltage in whole volts.
pub const ADC_UREF_VOLTS: i16 = 5;

/// The largest code of the 10-bit converter.
pub const ADC_MAX: u16 = 0x3FF;

/// Raw temperature above which the machine is shut off (100 degrees).
pub const TEMP_LIMIT_HI_Q: i16 = 12800;

/// Raw temperature below which the machine may run again (80 degrees).
pub const TEMP_LIMIT_LO_Q: i16 = 10240;

/// Raw divisor of the temperature filters (16).
pub const TEMP_FILTER_DIV_Q: i16 = 4096;

/// The curve of the motor's temperature sensor: resistance in kiloohms to
/// temperature, from 145 degrees at 0.3321 kiloohms down to 25 degrees at
/// 10 kiloohms.
pub open spec fn ntc_curve_points() -> Seq<(Fixpt, Fixpt)> {
    seq![
        (Fixpt(85), Fixpt(18560)),
        (Fixpt(132), Fixpt(16000)),
        (Fixpt(215), Fixpt(13440)),
        (Fixpt(365), Fixpt(10880)),
        (Fixpt(656), Fixpt(8320)),
        (Fixpt(1252), Fixpt(5760)),
        (Fixpt(2560), Fixpt(3200)),
    ]
}

/// The curve of the die's temperature sensor: an eighth of the converter
/// code to temperature, from 25 degrees at code 300 to 145 degrees at code
/// 440.
pub open spec fn uc_curve_points() -> Seq<(Fixpt, Fixpt)> {
    seq![(Fixpt(9600), Fixpt(3200)), (Fixpt(11840), Fixpt(10880)), (Fixpt(14080), Fixpt(18560))]
}

/// The curve of the motor's temperature sensor.
pub fn ntc_curve() -> (r: [(Fixpt, Fixpt); 7])
    ensures
        r@ =~= ntc_curve_points(),
        curve_increasing(r@),
        curve_steps_divisible(r@),
{
    [
        (Fixpt::from_q(85), Fixpt::from_q(18560)),
        (Fixpt::from_q(132), Fixpt::from_q(16000)),
        (Fixpt::from_q(215), Fixpt::from_q(13440)),
        (Fixpt::from_q(365), Fixpt::from_q(10880)),
        (Fixpt::from_q(656), Fixpt::from_q(8320)),
        (Fixpt::from_q(1252), Fixpt::from_q(5760)),
        (Fixpt::from_q(2560), Fixpt::from_q(3200)),
    ]
}

/// The curve of the die's temperature sensor.
pub fn uc_curve() -> (r: [(Fixpt, Fixpt); 3])
    ensures
        r@ =~= uc_curve_points(),
        curve_increasing(r@),
        curve_steps_divisible(r@),
{
    [
        (Fixpt::from_q(9600), Fixpt::from_q(3200)),
        (Fixpt::from_q(11840), Fixpt::from_q(10880)),
        (Fixpt::from_q(14080), Fixpt::from_q(18560)),
    ]
}

/// The raw voltage at the converter pin for a code of the motor channel.
pub open spec fn mot_volts_q(adc: int) -> int {
    q_div(adc * ADC_UREF_VOLTS, ADC_MAX as int)
}

/// The raw resistance of the motor's sensor for a raw voltage: the lower
/// leg of a divider under the series resistor.
pub open spec fn mot_kohms_q(u2: int) -> int {
    q_div(q_mul(R1_Q as int, u2), q_sub(ADC_UREF_Q as int, u2))
}

/// The raw motor temperature for a converter code.
pub open spec fn mot_celsius_q(adc: int) -> int {
    curve_value(ntc_curve_points(), mot_kohms_q(mot_volts_q(adc)))
}

/// The raw die temperature for a converter code.
pub open spec fn uc_celsius_q(adc: int) -> int {
    curve_value(uc_curve_points(), q_div(adc, 8))
}

/// Converts a code of the motor channel to volts at the converter pin,
/// which lie between zero and the reference voltage.
pub fn mot_adc_to_volts(adc: u16) -> (r: Fixpt)
    requires
        adc <= ADC_MAX,
    ensures
        r@ == mot_volts_q(adc as int),
        0 <= r@ <= ADC_UREF_Q,
{
    let num: i16 = adc as i16 * ADC_UREF_VOLTS;
    let den: i16 = ADC_MAX as i16;
    q7p8_from_fraction(num, den)
}

/// Converts the voltage of the motor channel, which lies between zero and
/// the reference voltage, to the sensor's resistance. At the reference
/// voltage the resistance is without bound and the result saturates.
pub fn mot_volts_to_kohms(u2: Fixpt) -> (r: Fixpt)
    requires
        0 <= u2@ <= ADC_UREF_Q,
    ensures
        r@ == mot_kohms_q(u2@),
{
    q7p8_div(q7p8_mul(Fixpt::from_q(R1_Q), u2), q7p8_sub(Fixpt::from_q(ADC_UREF_Q), u2))
}

/// Converts the sensor's resistance to the motor temperature.
pub fn mot_kohms_to_celsius_double(r2: Fixpt) -> (r: Fixpt)
    ensures
        r@ == curve_value(ntc_curve_points(), r2@),
{
    let curve = ntc_curve();
    curve_lin_inter(&curve, r2)
}

/// Converts a code of the die channel to the die temperature.
pub fn uc_adc_to_celsius_double(adc: u16) -> (r: Fixpt)
    requires
        adc <= ADC_MAX,
    ensures
        r@ == uc_celsius_q(adc as int),
{
    let curve = uc_curve();
    curve_lin_inter(&curve, q7p8_from_fraction(adc as i16, 8))
}

/// The converter codes of the two temperature channels; a channel without
/// a result yet has none.
#[derive(Copy, Clone, Debug)]
pub struct TempAdc {
    /// Die temperature.
    pub uc: Option<u16>,
    /// Motor temperature.
    pub mot: Option<u16>,
}

/// How a filtered temperature stands to the two thresholds.
#[derive(Copy, Clone, Debug, PartialEq, Eq, Structural)]
pub enum TempBand {
    /// Above the high threshold.
    AboveHi,
    /// Below the low threshold.
    BelowLo,
    /// Between the thresholds.
    Between,
}

/// The band of a raw temperature.
pub open spec fn temp_band(t: int) -> TempBand {
    if t > TEMP_LIMIT_HI_Q {
        TempBand::AboveHi
    } else if t < TEMP_LIMIT_LO_Q {
        TempBand::BelowLo
    } else {
        TempBand::Between
    }
}

/// The verdict after a cycle in which the channels stand in the bands
/// `mot` and `uc`, a channel without a reading in none. A channel above
/// the high threshold shuts off; else a channel below the low threshold
/// lets the machine run; else the verdict stays.
pub open spec fn temp_verdict(old: Shutoff, mot: Option<TempBand>, uc: Option<TempBand>) -> Shutoff {
    if mot == Some(TempBand::AboveHi) || uc == Some(TempBand::AboveHi) {
        Shutoff::MachineShutoff
    } else if mot == Some(TempBand::BelowLo) || uc == Some(TempBand::BelowLo) {
        Shutoff::MachineRunning
    } else {
        old
    }
}

/// The temperature monitor.
pub struct Temp {
    shutoff: Shutoff,
    filter_uc: Filter,
    filter_mot: Filter,
}

impl Temp {
    /// The current verdict.
    pub closed spec fn shutoff(&self) -> Shutoff {
        self.shutoff
    }

    /// The filter of the die temperature.
    pub closed spec fn filter_uc(&self) -> Filter {
        self.filter_uc
    }

    /// The filter of the motor temperature.
    pub closed spec fn filter_mot(&self) -> Filter {
        self.filter_mot
    }

    /// The monitor starts with a shutoff verdict, which the first reading
    /// below the low threshold lifts.
    pub fn new() -> (r: Self)
        ensures
            r.shutoff() == Shutoff::MachineShutoff,
            r.filter_uc().buf() == 0 && r.filter_uc().out() == 0,
            r.filter_mot().buf() == 0 && r.filter_mot().out() == 0,
    {
        Temp { shutoff: Shutoff::MachineShutoff, filter_uc: Filter::new(), filter_mot: Filter::new() }
    }

    /// The filtered motor temperature after a reading of `adc`.
    pub open spec fn mot_filtered(&self, adc: int) -> int {
        filter_out(
            self.filter_mot().buf(),
            self.filter_mot().out(),
            mot_celsius_q(adc),
            TEMP_FILTER_DIV_Q as int,
        )
    }

    /// The filtered die temperature after a reading of `adc`.
    pub open spec fn uc_filtered(&self, adc: int) -> int {
        filter_out(
            self.filter_uc().buf(),
            self.filter_uc().out(),
            uc_celsius_q(adc),
            TEMP_FILTER_DIV_Q as int,
        )
    }

    /// Evaluates the readings of one cycle. Each reading is converted to a
    /// temperature and filtered, and the filtered temperature is held
    /// against the thresholds.
    pub fn run(&mut self, temp_adc: TempAdc)
        requires
            temp_adc.mot.is_some() ==> temp_adc.mot.unwrap() <= ADC_MAX,
            temp_adc.uc.is_some() ==> temp_adc.uc.unwrap() <= ADC_MAX,
        ensures
            temp_ran(*old(self), *final(self), temp_adc),
    {
        let mut below_lo = false;
        let mut above_hi = false;
        if let Some(temp_mot) = temp_adc.mot {
            let temp_mot_volts = mot_adc_to_volts(temp_mot);
            let temp_mot_kohms = mot_volts_to_kohms(temp_mot_volts);
            let temp_mot_cel = mot_kohms_to_celsius_double(temp_mot_kohms);
            let temp_mot_cel = self.filter_mot.run(temp_mot_cel, Fixpt::from_q(TEMP_FILTER_DIV_Q));
            if temp_mot_cel.to_q() > TEMP_LIMIT_HI_Q {
                above_hi = true;
            } else if temp_mot_cel.to_q() < TEMP_LIMIT_LO_Q {
                below_lo = true;
            }
        }
        if let Some(temp_uc) = temp_adc.uc {
            let temp_uc_cel = uc_adc_to_celsius_double(temp_uc);
            let temp_uc_cel = self.filter_uc.run(temp_uc_cel, Fixpt::from_q(TEMP_FILTER_DIV_Q));
            if temp_uc_cel.to_q() > TEMP_LIMIT_HI_Q {
                above_hi = true;
            } else if temp_uc_cel.to_q() < TEMP_LIMIT_LO_Q {
                below_lo = true;
            }
        }
        if below_lo {
            self.shutoff = Shutoff::MachineRunning;
        }
        if above_hi {
            self.shutoff = Shutoff::MachineShutoff;
        }
    }

    pub fn get_shutoff(&self) -> (r: Shutoff)
        ensures
            r == self.shutoff(),
    {
        self.shutoff
    }
}

/// What a cycle of the temperature monitor with the readings `temp_adc`
/// makes of the state `old`: each channel with a reading is converted and
/// filtered, and the verdict follows the filtered temperatures.
pub open spec fn temp_ran(old: Temp, new: Temp, temp_adc: TempAdc) -> bool {
    &&& new.shutoff() == temp_verdict(
        old.shutoff(),
        match temp_adc.mot {
            Some(adc) => Some(temp_band(old.mot_filtered(adc as int))),
            None => None,
        },
        match temp_adc.uc {
            Some(adc) => Some(temp_band(old.uc_filtered(adc as int))),
            None => None,
        },
    )
    &&& match temp_adc.mot {
        Some(adc) => {
            &&& new.filter_mot().out() == old.mot_filtered(adc as int)
            &&& new.filter_mot().buf() == filter_buf(
                old.filter_mot().buf(),
                old.filter_mot().out(),
                mot_celsius_q(adc as int),
            )
        },
        None => new.filter_mot() == old.filter_mot(),
    }
    &&& match temp_adc.uc {
        Some(adc) => {
            &&& new.filter_uc().out() == old.uc_filtered(adc as int)
            &&& new.filter_uc().buf() == filter_buf(
                old.filter_uc().buf(),
                old.filter_uc().out(),
                uc_celsius_q(adc as int),
            )
        },
        None => new.filter_uc() == old.filter_uc(),
    }
}

/// The thresholds leave a gap: a temperature that shuts the machine off
/// must fall by more than the gap before the machine may run again, and a
/// temperature between the thresholds changes nothing.
pub proof fn lemma_temp_hysteresis(old: Shutoff, t: int)
    ensures
        TEMP_LIMIT_LO_Q < TEMP_LIMIT_HI_Q,
        temp_band(t) == TempBand::Between ==> temp_verdict(old, Some(temp_band(t)), None) == old,
        temp_verdict(old, Some(temp_band(t)), None) == Shutoff::MachineRunning && old
            == Shutoff::MachineShutoff ==> t < TEMP_LIMIT_LO_Q,
        temp_verdict(old, Some(temp_band(t)), None) == Shutoff::MachineShutoff && old
            == Shutoff::MachineRunning ==> t > TEMP_LIMIT_HI_Q,
{
}

} // verus!
