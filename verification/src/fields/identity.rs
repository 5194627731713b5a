use vstd::prelude::*;
use vstd::string::StrSliceExecFns;

use crate::error::Error;
use crate::fields::distance::Degree;
use crate::fields::parameter::DBHZ;
use crate::number::{spec_decimal, Decimal};
use crate::parser_utils::{
    lemma_parse_u16_consumes, lemma_parse_u8_consumes, parse_u16, parse_u8, spec_parse_u16,
    spec_parse_u8, step_eq,
};

verus! {

/// The type of the transmitting unit that sent the message
#[derive(Debug, Clone, Copy, PartialEq, Eq)]
pub enum Talker {
    /// Independent AIS Base Station
    IndependentAISBaseStation,
    /// Dependent AIS Base Station
    DependentAISBaseStation,
    /// Autopilot - General
    AutopilotGeneral,
    /// Autopilot - Magnetic
    AutopilotMagnetic,
    /// BeiDou (China)
    BeiDou,
    /// Bridge navigational watch alarm system
    BridgeNavigationalWatchAlarmSystem,
    /// Computer - Programmed Calculator (obsolete)
    ComputerProgrammedCalculator,
    /// Communications - Digital Selective Calling (DSC)
    DigitalSelectiveCalling,
    /// Computer - Memory Data (obsolete)
    ComputerMemoryData,
    /// Communications - Satellite
    CommunicationsSatellite,
    /// Communications - Radio-Telephone (MF/HF)
    CommunicationsRadioTelephoneMFHF,
    /// Communications - Radio-Telephone (VHF)
    CommunicationsRadioTelephoneVHF,
    /// Communications - Scanning Receiver
    CommunicationsScanningReceiver,
    /// DECCA Navigation (obsolete)
    DECCA,
    /// Direction Finder
    DirectionFinder,
    /// Velocity Sensor, Speed Log, Water, Magnetic
    VelocitySensorSpeedLogWaterMagnetic,
    /// Duplex repeater station
    DuplexRepeaterStation,
    /// Electronic Chart Display & Information System (ECDIS)
    ElectronicChartDisplayAndInformationSystem,
    /// Emergency Position Indicating Beacon (EPIRB)
    EmergencyPositionIndicatingBeacon,
    /// Engine Room Monitoring Systems
    EngineRoomMonitoringSystems,
    /// Galileo Positioning System
    Galileo,
    /// GLONASS, according to IEIC 61162-1
    GLONASS,
    /// Mixed GPS and GLONASS data, according to IEIC 61162-1
    GPSGLONASS,
    /// Global Positioning System
    GPS,
    /// Heading - Magnetic Compass
    HeadingMagneticCompass,
    /// Heading - North Seeking Gyro
    HeadingNorthSeekingGyro,
    /// Heading - Non North Seeking Gyro
    HeadingNonNorthSeekingGyro,
    /// Integrated Instrumentation
    IntegratedInstrumentation,
    /// Integrated Navigation
    IntegratedNavigation,
    /// Loran A receiver (obsolete)
    LoranAReceiver,
    /// Loran-C receiver (obsolete)
    LoranCReceiver,
    /// Microwave Positioning System (obsolete)
    MicrowavePositioningSystem,
    /// Navigation light controller
    NavigationLightController,
    /// OMEGA Navigation System (obsolete)
    OMEGANavigationSystem,
    /// Distress Alarm System (obsolete)
    DistressAlarmSystem,
    /// RADAR and/or ARPA
    RADAROrARPA,
    /// Sounder, Depth
    SounderDepth,
    /// Electronic Positioning System, other/general
    ElectronicPositioningSystem,
    /// Sounder, Scanning
    SounderScanning,
    /// Turn Rate Indicator
    TurnRateIndicator,
    /// TRANSIT Navigation System
    TRANSITNavigationSystem,
    /// User Configured
    U0,
    /// User Configured
    U1,
    /// User Configured
    U2,
    /// User Configured
    U3,
    /// User Configured
    U4,
    /// User Configured
    U5,
    /// User Configured
    U6,
    /// User Configured
    U7,
    /// User Configured
    U8,
    /// User Configured
    U9,
    /// Microprocessor controller
    MicroprocessorController,
    /// QZSS regional GPS augmentation system (Japan)
    QZSS,
    /// Velocity Sensor, Doppler, other/general
    VelocitySensorDoppler,
    /// Velocity Sensor, Speed Log, Water, Mechanical
    VelocitySensorSpeedLogWaterMechanical,
    /// Weather Instruments
    WeatherInstruments,
    /// Transducer - Temperature (obsolete)
    TransducerTemperature,
    /// Transducer - Displacement, Angular or Linear (obsolete)
    TransducterDisplacementAngularOrLinear,
    /// Transducer - Frequency (obsolete)
    TransducerFrequency,
    /// Transducer - Level (obsolete)
    TransducerLevel,
    /// Transducer - Pressure (obsolete)
    TransducerPressure,
    /// Transducer - Flow Rate (obsolete)
    TransducerFlowRate,
    /// Transducer - Tachometer (obsolete)
    TransducerTachometer,
    /// Transducer - Volume (obsolete)
    TransducerVolume,
    /// Transducer
    Transducer,
    /// Timekeeper - Atomic Clock
    TimekeeperAtomicClock,
    /// Timekeeper - Chronometer
    TimekeeperChronometer,
    /// Timekeeper - Quartz
    TimekeeperQuartz,
    /// Timekeeper - Radio Update, WWV or WWVH
    TimekeeperRadioUpdate,
}

/// The transmitter a two-letter talker code stands for; `None` when
/// the code is not in the table.
pub open spec fn spec_talker_code(a: char, b: char) -> Option<Talker> {
    match (a, b) {
        ('A', 'B') => Some(Talker::IndependentAISBaseStation),
        ('A', 'D') => Some(Talker::DependentAISBaseStation),
        ('A', 'G') => Some(Talker::AutopilotGeneral),
        ('A', 'P') => Some(Talker::AutopilotMagnetic),
        ('B', 'D') => Some(Talker::BeiDou),
        ('B', 'N') => Some(Talker::BridgeNavigationalWatchAlarmSystem),
        ('C', 'C') => Some(Talker::ComputerProgrammedCalculator),
        ('C', 'D') => Some(Talker::DigitalSelectiveCalling),
        ('C', 'M') => Some(Talker::ComputerMemoryData),
        ('C', 'S') => Some(Talker::CommunicationsSatellite),
        ('C', 'T') => Some(Talker::CommunicationsRadioTelephoneMFHF),
        ('C', 'V') => Some(Talker::CommunicationsRadioTelephoneVHF),
        ('C', 'X') => Some(Talker::CommunicationsScanningReceiver),
        ('D', 'E') => Some(Talker::DECCA),
        ('D', 'F') => Some(Talker::DirectionFinder),
        ('D', 'M') => Some(Talker::VelocitySensorSpeedLogWaterMagnetic),
        ('D', 'U') => Some(Talker::DuplexRepeaterStation),
        ('E', 'C') => Some(Talker::ElectronicChartDisplayAndInformationSystem),
        ('E', 'P') => Some(Talker::EmergencyPositionIndicatingBeacon),
        ('E', 'R') => Some(Talker::EngineRoomMonitoringSystems),
        ('G', 'A') => Some(Talker::Galileo),
        ('G', 'B') => Some(Talker::BeiDou),
        ('G', 'L') => Some(Talker::GLONASS),
        ('G', 'N') => Some(Talker::GPSGLONASS),
        ('G', 'P') => Some(Talker::GPS),
        ('H', 'C') => Some(Talker::HeadingMagneticCompass),
        ('H', 'E') => Some(Talker::HeadingNonNorthSeekingGyro),
        ('H', 'N') => Some(Talker::HeadingNonNorthSeekingGyro),
        ('I', 'I') => Some(Talker::IntegratedInstrumentation),
        ('I', 'N') => Some(Talker::IntegratedNavigation),
        ('L', 'A') => Some(Talker::LoranAReceiver),
        ('L', 'C') => Some(Talker::LoranCReceiver),
        ('M', 'P') => Some(Talker::MicrowavePositioningSystem),
        ('N', 'L') => Some(Talker::NavigationLightController),
        ('O', 'M') => Some(Talker::OMEGANavigationSystem),
        ('O', 'S') => Some(Talker::DistressAlarmSystem),
        ('Q', 'Z') => Some(Talker::QZSS),
        ('R', 'A') => Some(Talker::RADAROrARPA),
        ('S', 'D') => Some(Talker::SounderDepth),
        ('S', 'N') => Some(Talker::ElectronicPositioningSystem),
        ('S', 'S') => Some(Talker::SounderScanning),
        ('T', 'I') => Some(Talker::TurnRateIndicator),
        ('T', 'R') => Some(Talker::TRANSITNavigationSystem),
        ('U', '0') => Some(Talker::U0),
        ('U', '1') => Some(Talker::U1),
        ('U', '2') => Some(Talker::U2),
        ('U', '3') => Some(Talker::U3),
        ('U', '4') => Some(Talker::U4),
        ('U', '5') => Some(Talker::U5),
        ('U', '6') => Some(Talker::U6),
        ('U', '7') => Some(Talker::U7),
        ('U', '8') => Some(Talker::U8),
        ('U', '9') => Some(Talker::U9),
        ('U', 'P') => Some(Talker::MicroprocessorController),
        ('V', 'D') => Some(Talker::VelocitySensorDoppler),
        ('V', 'W') => Some(Talker::VelocitySensorSpeedLogWaterMechanical),
        ('W', 'I') => Some(Talker::WeatherInstruments),
        ('Y', 'C') => Some(Talker::TransducerTemperature),
        ('Y', 'D') => Some(Talker::TransducterDisplacementAngularOrLinear),
        ('Y', 'F') => Some(Talker::TransducerFrequency),
        ('Y', 'L') => Some(Talker::TransducerLevel),
        ('Y', 'P') => Some(Talker::TransducerPressure),
        ('Y', 'R') => Some(Talker::TransducerFlowRate),
        ('Y', 'T') => Some(Talker::TransducerTachometer),
        ('Y', 'V') => Some(Talker::TransducerVolume),
        ('Y', 'X') => Some(Talker::Transducer),
        ('Z', 'A') => Some(Talker::TimekeeperAtomicClock),
        ('Z', 'C') => Some(Talker::TimekeeperChronometer),
        ('Z', 'Q') => Some(Talker::TimekeeperQuartz),
        ('Z', 'V') => Some(Talker::TimekeeperRadioUpdate),
        _ => None,
    }
}

/// Meaning of the talker code: the first two characters, looked up in
/// the talker table. A code outside the table is a hard failure.
pub open spec fn spec_parse_talker(s: Seq<char>) -> Result<(Seq<char>, Talker), Error> {
    if s.len() < 2 {
        Err(Error::Incomplete)
    } else {
        match spec_talker_code(s[0], s[1]) {
            Some(t) => Ok((s.subrange(2, s.len() as int), t)),
            None => Err(Error::UnknownTalker),
        }
    }
}

/// Looks the first two characters up in the talker table.
pub fn parse_talker(input: &str) -> (r: Result<(&str, Talker), Error>)
    ensures
        step_eq(r, spec_parse_talker(input@)),
{
    let n = input.unicode_len();
    if n < 2 {
        return Err(Error::Incomplete);
    }
    let a = input.get_char(0);
    let b = input.get_char(1);
    let rest = input.substring_char(2, n);
    proof {
        assert(rest@ =~= input@.subrange(2, input@.len() as int));
    }
    let t = match (a, b) {
        ('A', 'B') => Talker::IndependentAISBaseStation,
        ('A', 'D') => Talker::DependentAISBaseStation,
        ('A', 'G') => Talker::AutopilotGeneral,
        ('A', 'P') => Talker::AutopilotMagnetic,
        ('B', 'D') => Talker::BeiDou,
        ('B', 'N') => Talker::BridgeNavigationalWatchAlarmSystem,
        ('C', 'C') => Talker::ComputerProgrammedCalculator,
        ('C', 'D') => Talker::DigitalSelectiveCalling,
        ('C', 'M') => Talker::ComputerMemoryData,
        ('C', 'S') => Talker::CommunicationsSatellite,
        ('C', 'T') => Talker::CommunicationsRadioTelephoneMFHF,
        ('C', 'V') => Talker::CommunicationsRadioTelephoneVHF,
        ('C', 'X') => Talker::CommunicationsScanningReceiver,
        ('D', 'E') => Talker::DECCA,
        ('D', 'F') => Talker::DirectionFinder,
        ('D', 'M') => Talker::VelocitySensorSpeedLogWaterMagnetic,
        ('D', 'U') => Talker::DuplexRepeaterStation,
        ('E', 'C') => Talker::ElectronicChartDisplayAndInformationSystem,
        ('E', 'P') => Talker::EmergencyPositionIndicatingBeacon,
        ('E', 'R') => Talker::EngineRoomMonitoringSystems,
        ('G', 'A') => Talker::Galileo,
        ('G', 'B') => Talker::BeiDou,
        ('G', 'L') => Talker::GLONASS,
        ('G', 'N') => Talker::GPSGLONASS,
        ('G', 'P') => Talker::GPS,
        ('H', 'C') => Talker::HeadingMagneticCompass,
        ('H', 'E') => Talker::HeadingNonNorthSeekingGyro,
        ('H', 'N') => Talker::HeadingNonNorthSeekingGyro,
        ('I', 'I') => Talker::IntegratedInstrumentation,
        ('I', 'N') => Talker::IntegratedNavigation,
        ('L', 'A') => Talker::LoranAReceiver,
        ('L', 'C') => Talker::LoranCReceiver,
        ('M', 'P') => Talker::MicrowavePositioningSystem,
        ('N', 'L') => Talker::NavigationLightController,
        ('O', 'M') => Talker::OMEGANavigationSystem,
        ('O', 'S') => Talker::DistressAlarmSystem,
        ('Q', 'Z') => Talker::QZSS,
        ('R', 'A') => Talker::RADAROrARPA,
        ('S', 'D') => Talker::SounderDepth,
        ('S', 'N') => Talker::ElectronicPositioningSystem,
        ('S', 'S') => Talker::SounderScanning,
        ('T', 'I') => Talker::TurnRateIndicator,
        ('T', 'R') => Talker::TRANSITNavigationSystem,
        ('U', '0') => Talker::U0,
        ('U', '1') => Talker::U1,
        ('U', '2') => Talker::U2,
        ('U', '3') => Talker::U3,
        ('U', '4') => Talker::U4,
        ('U', '5') => Talker::U5,
        ('U', '6') => Talker::U6,
        ('U', '7') => Talker::U7,
        ('U', '8') => Talker::U8,
        ('U', '9') => Talker::U9,
        ('U', 'P') => Talker::MicroprocessorController,
        ('V', 'D') => Talker::VelocitySensorDoppler,
        ('V', 'W') => Talker::VelocitySensorSpeedLogWaterMechanical,
        ('W', 'I') => Talker::WeatherInstruments,
        ('Y', 'C') => Talker::TransducerTemperature,
        ('Y', 'D') => Talker::TransducterDisplacementAngularOrLinear,
        ('Y', 'F') => Talker::TransducerFrequency,
        ('Y', 'L') => Talker::TransducerLevel,
        ('Y', 'P') => Talker::TransducerPressure,
        ('Y', 'R') => Talker::TransducerFlowRate,
        ('Y', 'T') => Talker::TransducerTachometer,
        ('Y', 'V') => Talker::TransducerVolume,
        ('Y', 'X') => Talker::Transducer,
        ('Z', 'A') => Talker::TimekeeperAtomicClock,
        ('Z', 'C') => Talker::TimekeeperChronometer,
        ('Z', 'Q') => Talker::TimekeeperQuartz,
        ('Z', 'V') => Talker::TimekeeperRadioUpdate,
        _ => { return Err(Error::UnknownTalker); },
    };
    Ok((rest, t))
}

/// Represents a Satellite, with its position
#[derive(Debug, Clone, Copy, PartialEq, Eq)]
pub struct SatelliteInView {
    pub id: Option<u8>,
    /// Elevation
    pub elv: Option<Degree>,
    /// Azimuth
    pub az: Option<Degree>,
    /// Signal strength
    pub cno: Option<DBHZ>,
}

/// List of satellites in view. The protocol caps one message at four;
/// the list carries what the sentence reported.
pub type SatelliteInViewList = Vec<SatelliteInView>;

/// The whole degrees an integer angle field stands for.
pub open spec fn spec_whole_degrees(v: nat) -> Degree {
    Degree(spec_decimal(false, v, 0))
}

/// Meaning of one satellite entry: identifier, elevation, azimuth and
/// signal strength, each optional, as four numeric fields.
pub open spec fn spec_parse_satellite_in_view(s: Seq<char>) -> Result<
    (Seq<char>, SatelliteInView),
    Error,
> {
    match spec_parse_u8(s) {
        Err(e) => Err(e),
        Ok((s1, id)) => match spec_parse_u8(s1) {
            Err(e) => Err(e),
            Ok((s2, elv)) => match spec_parse_u16(s2) {
                Err(e) => Err(e),
                Ok((s3, az)) => match spec_parse_u8(s3) {
                    Err(e) => Err(e),
                    Ok((s4, cno)) => Ok(
                        (
                            s4,
                            SatelliteInView {
                                id,
                                elv: match elv {
                                    Some(v) => Some(spec_whole_degrees(v as nat)),
                                    None => None,
                                },
                                az: match az {
                                    Some(v) => Some(spec_whole_degrees(v as nat)),
                                    None => None,
                                },
                                cno: match cno {
                                    Some(v) => Some(DBHZ(spec_decimal(false, v as nat, 0))),
                                    None => None,
                                },
                            },
                        ),
                    ),
                },
            },
        },
    }
}

/// Reads one satellite entry off four numeric fields.
fn parse_satellite_in_view(input: &str) -> (r: Result<(&str, SatelliteInView), Error>)
    ensures
        step_eq(r, spec_parse_satellite_in_view(input@)),
{
    let (s1, id) = match parse_u8(input) {
        Ok(p) => p,
        Err(e) => { return Err(e); },
    };
    let (s2, elv) = match parse_u8(s1) {
        Ok(p) => p,
        Err(e) => { return Err(e); },
    };
    let (s3, az) = match parse_u16(s2) {
        Ok(p) => p,
        Err(e) => { return Err(e); },
    };
    let (s4, cno) = match parse_u8(s3) {
        Ok(p) => p,
        Err(e) => { return Err(e); },
    };
    let sv = SatelliteInView {
        id,
        elv: match elv {
            Some(v) => Some(Degree(Decimal::from_int(v as u64))),
            None => None,
        },
        az: match az {
            Some(v) => Some(Degree(Decimal::from_int(v as u64))),
            None => None,
        },
        cno: match cno {
            Some(v) => Some(DBHZ(Decimal::from_int(v as u64))),
            None => None,
        },
    };
    Ok((s4, sv))
}

/// A satellite entry read with success came off a non-empty buffer
/// and left a strictly shorter one.
pub proof fn lemma_satellite_in_view_consumes(s: Seq<char>)
    ensures
        spec_parse_satellite_in_view(s) matches Ok((rest, _)) ==> s.len() > 0 && rest.len()
            < s.len(),
{
    lemma_parse_u8_consumes(s);
    if spec_parse_u8(s) is Ok {
        let s1 = spec_parse_u8(s)->Ok_0.0;
        lemma_parse_u8_consumes(s1);
        if spec_parse_u8(s1) is Ok {
            let s2 = spec_parse_u8(s1)->Ok_0.0;
            lemma_parse_u16_consumes(s2);
            if spec_parse_u16(s2) is Ok {
                let s3 = spec_parse_u16(s2)->Ok_0.0;
                lemma_parse_u8_consumes(s3);
            }
        }
    }
}

/// Meaning of the satellite list: satellite entries back to back until
/// the buffer is exhausted. (The recursion guard on the buffer length
/// never fires: a successful entry always consumes characters.)
pub open spec fn spec_parse_satellites_in_view(s: Seq<char>) -> Result<
    (Seq<char>, Seq<SatelliteInView>),
    Error,
>
    decreases s.len(),
{
    if s.len() == 0 {
        Ok((s, Seq::empty()))
    } else {
        match spec_parse_satellite_in_view(s) {
            Err(e) => Err(e),
            Ok((r1, sv)) => if r1.len() < s.len() {
                match spec_parse_satellites_in_view(r1) {
                    Err(e) => Err(e),
                    Ok((r2, svs)) => Ok((r2, seq![sv] + svs)),
                }
            } else {
                Err(Error::TrailingData)
            },
        }
    }
}

/// Reads satellite entries until the buffer is exhausted.
#[verifier::loop_isolation(false)]
pub fn parse_satellites_in_view(input: &str) -> (r: Result<(&str, Vec<SatelliteInView>), Error>)
    ensures
        match r {
            Ok((rem, v)) => spec_parse_satellites_in_view(input@) == Ok::<_, Error>((rem@, v@)),
            Err(e) => spec_parse_satellites_in_view(input@) == Err::<
                (Seq<char>, Seq<SatelliteInView>),
                _,
            >(e),
        },
{
    let mut out: Vec<SatelliteInView> = Vec::new();
    let mut rest: &str = input;
    proof {
        if spec_parse_satellites_in_view(input@) is Ok {
            assert(Seq::<SatelliteInView>::empty() + spec_parse_satellites_in_view(
                input@,
            )->Ok_0.1 =~= spec_parse_satellites_in_view(input@)->Ok_0.1);
        }
    }
    while rest.unicode_len() != 0
        invariant
            match spec_parse_satellites_in_view(rest@) {
                Ok((fr, fv)) => spec_parse_satellites_in_view(input@) == Ok::<_, Error>(
                    (fr, out@ + fv),
                ),
                Err(e) => spec_parse_satellites_in_view(input@) == Err::<
                    (Seq<char>, Seq<SatelliteInView>),
                    _,
                >(e),
            },
        decreases rest@.len(),
    {
        let (r1, sv) = match parse_satellite_in_view(rest) {
            Ok(p) => p,
            Err(e) => { return Err(e); },
        };
        proof {
            lemma_satellite_in_view_consumes(rest@);
        }
        let ghost out_old = out@;
        out.push(sv);
        proof {
            let tail = spec_parse_satellites_in_view(r1@);
            if tail is Ok {
                assert(out@ =~= out_old + seq![sv]);
                assert(out_old + (seq![sv] + tail->Ok_0.1) =~= (out_old + seq![sv])
                    + tail->Ok_0.1);
            }
        }
        rest = r1;
    }
    proof {
        assert(out@ + Seq::<SatelliteInView>::empty() =~= out@);
    }
    Ok((rest, out))
}

/// Meaning of one slot of the satellite-identifier list: tolerant of an
/// exhausted buffer, where the slot is absent.
pub open spec fn spec_parse_satellite_id(s: Seq<char>) -> Result<(Seq<char>, Option<u8>), Error> {
    if s.len() == 0 {
        Ok((s, None))
    } else {
        spec_parse_u8(s)
    }
}

/// Reads one slot of the satellite-identifier list.
fn parse_satellite_id(input: &str) -> (r: Result<(&str, Option<u8>), Error>)
    ensures
        step_eq(r, spec_parse_satellite_id(input@)),
{
    if input.unicode_len() == 0 {
        return Ok((input, None));
    }
    parse_u8(input)
}

/// Meaning of reading `n` more satellite-identifier slots in a row.
pub open spec fn spec_parse_satellite_ids_n(s: Seq<char>, n: nat) -> Result<
    (Seq<char>, Seq<Option<u8>>),
    Error,
>
    decreases n,
{
    if n == 0 {
        Ok((s, Seq::empty()))
    } else {
        match spec_parse_satellite_id(s) {
            Err(e) => Err(e),
            Ok((r1, v)) => match spec_parse_satellite_ids_n(r1, (n - 1) as nat) {
                Err(e) => Err(e),
                Ok((r2, vs)) => Ok((r2, seq![v] + vs)),
            },
        }
    }
}

/// Meaning of the satellite-identifier list: exactly twelve slots, the
/// trailing ones absent when fewer satellites are reported.
pub open spec fn spec_parse_satellite_ids(s: Seq<char>) -> Result<
    (Seq<char>, Seq<Option<u8>>),
    Error,
> {
    spec_parse_satellite_ids_n(s, 12)
}

/// Reads the twelve-slot satellite-identifier list.
#[verifier::loop_isolation(false)]
pub fn parse_satellite_ids(input: &str) -> (r: Result<(&str, Vec<Option<u8>>), Error>)
    ensures
        match r {
            Ok((rem, v)) => spec_parse_satellite_ids(input@) == Ok::<_, Error>((rem@, v@))
                && v@.len() == 12,
            Err(e) => spec_parse_satellite_ids(input@) == Err::<(Seq<char>, Seq<Option<u8>>), _>(
                e,
            ),
        },
{
    let mut out: Vec<Option<u8>> = Vec::new();
    let mut rest: &str = input;
    let mut i: usize = 0;
    proof {
        if spec_parse_satellite_ids_n(input@, 12) is Ok {
            assert(Seq::<Option<u8>>::empty() + spec_parse_satellite_ids_n(input@, 12)->Ok_0.1
                =~= spec_parse_satellite_ids_n(input@, 12)->Ok_0.1);
        }
    }
    while i < 12
        invariant
            0 <= i <= 12,
            out@.len() == i,
            match spec_parse_satellite_ids_n(rest@, (12 - i) as nat) {
                Ok((fr, fv)) => spec_parse_satellite_ids_n(input@, 12) == Ok::<_, Error>(
                    (fr, out@ + fv),
                ),
                Err(e) => spec_parse_satellite_ids_n(input@, 12) == Err::<
                    (Seq<char>, Seq<Option<u8>>),
                    _,
                >(e),
            },
        decreases 12 - i,
    {
        let (r1, v) = match parse_satellite_id(rest) {
            Ok(p) => p,
            Err(e) => { return Err(e); },
        };
        proof {
            let tail = spec_parse_satellite_ids_n(r1@, (12 - i - 1) as nat);
            assert(spec_parse_satellite_ids_n(rest@, (12 - i) as nat) == (match tail {
                Err(e) => Err::<(Seq<char>, Seq<Option<u8>>), Error>(e),
                Ok((r2, vs)) => Ok::<(Seq<char>, Seq<Option<u8>>), Error>((r2, seq![v] + vs)),
            }));
        }
        let ghost out_old = out@;
        out.push(v);
        proof {
            let tail = spec_parse_satellite_ids_n(r1@, (12 - i - 1) as nat);
            if tail is Ok {
                assert(out@ =~= out_old + seq![v]);
                assert(out_old + (seq![v] + tail->Ok_0.1) =~= (out_old + seq![v])
                    + tail->Ok_0.1);
            }
        }
        rest = r1;
        i = i + 1;
    }
    proof {
        assert(out@ + Seq::<Option<u8>>::empty() =~= out@);
    }
    Ok((rest, out))
}

/// Reads the optional count of satellites used.
pub fn parse_num_satellites(input: &str) -> (r: Result<(&str, Option<u8>), Error>)
    ensures
        step_eq(r, spec_parse_u8(input@)),
{
    parse_u8(input)
}

/// Meaning of the differential-station field: an optional number that
/// may also stand at the very end of the buffer, where it is absent.
pub open spec fn spec_parse_station(s: Seq<char>) -> Result<(Seq<char>, Option<u8>), Error> {
    if s.len() == 0 {
        Ok((s, None))
    } else {
        spec_parse_u8(s)
    }
}

/// Reads the optional differential-station field, absent at the end of
/// the buffer.
pub fn parse_station(input: &str) -> (r: Result<(&str, Option<u8>), Error>)
    ensures
        step_eq(r, spec_parse_station(input@)),
{
    if input.unicode_len() == 0 {
        return Ok((input, None));
    }
    parse_u8(input)
}

/// Reads the optional navigation-system identifier field.
pub fn parse_system(input: &str) -> (r: Result<(&str, Option<u8>), Error>)
    ensures
        step_eq(r, spec_parse_u8(input@)),
{
    parse_u8(input)
}

/// Reads the optional signal identifier field.
pub fn parse_signal(input: &str) -> (r: Result<(&str, Option<u8>), Error>)
    ensures
        step_eq(r, spec_parse_u8(input@)),
{
    parse_u8(input)
}

} // verus!
