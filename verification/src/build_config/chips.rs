//! The parts a component record can name.
use crate::text;
use crate::text::{contains_text, lowercase, same_text, squeeze};
use vstd::prelude::*;

verus! {

/// Frame materials.
#[derive(Clone, Copy, Debug, PartialEq, Eq, Structural)]
pub enum FrameMaterial {
    /// Carbon fibre.
    Carbon,
    /// Plastics.
    Polymer,
    /// Aluminium.
    Aluminum,
    /// Anything else.
    Other,
}

/// Inertial measurement units.
#[derive(Clone, Copy, Debug, PartialEq, Eq, Structural)]
pub enum ImuChip {
    /// MPU-6000.
    Mpu6000,
    /// MPU-6500.
    Mpu6500,
    /// ICM-20689.
    Icm20689,
    /// ICM-42688-P.
    Icm42688p,
    /// BMI270.
    Bmi270,
    /// LSM6DSO.
    Lsm6dso,
    /// Anything else.
    Other,
}

/// Barometers.
#[derive(Clone, Copy, Debug, PartialEq, Eq, Structural)]
pub enum BaroChip {
    /// BMP280.
    Bmp280,
    /// BMP388.
    Bmp388,
    /// DPS310.
    Dps310,
    /// SPL06.
    Spl06,
    /// MS5611.
    Ms5611,
    /// Anything else.
    Other,
}

/// Magnetometers.
#[derive(Clone, Copy, Debug, PartialEq, Eq, Structural)]
pub enum MagChip {
    /// HMC5883.
    Hmc5883,
    /// QMC5883.
    Qmc5883,
    /// IST8310.
    Ist8310,
    /// RM3100.
    Rm3100,
    /// LIS3MDL.
    Lis3mdl,
    /// No magnetometer.
    Absent,
    /// Anything else.
    Other,
}

/// GPS chipsets.
#[derive(Clone, Copy, Debug, PartialEq, Eq, Structural)]
pub enum GpsChipset {
    /// u-blox F9P.
    UbloxF9P,
    /// u-blox M10.
    UbloxM10,
    /// u-blox M9N.
    UbloxM9N,
    /// u-blox M8N.
    UbloxM8N,
    /// Septentrio mosaic.
    SeptentrioMosaic,
    /// Here3.
    Here3,
    /// Anything else.
    Other,
}

/// The material of a lower-case name.
pub open spec fn frame_material(name: Seq<char>) -> FrameMaterial {
    if name == "carbon"@ || name == "carbon fiber"@ || name == "cf"@ {
        FrameMaterial::Carbon
    } else if name == "polymer"@ || name == "plastic"@ || name == "abs"@ || name
        == "polycarbonate"@ {
        FrameMaterial::Polymer
    } else if name == "aluminum"@ || name == "aluminium"@ || name == "alu"@ || name == "al"@ {
        FrameMaterial::Aluminum
    } else {
        FrameMaterial::Other
    }
}

/// The material of a lower-case name.
pub fn frame_material_of(name: &str) -> (r: FrameMaterial)
    ensures
        r == frame_material(name@),
{
    if same_text(name, "carbon") || same_text(name, "carbon fiber") || same_text(name, "cf") {
        FrameMaterial::Carbon
    } else if same_text(name, "polymer") || same_text(name, "plastic") || same_text(name, "abs")
        || same_text(name, "polycarbonate") {
        FrameMaterial::Polymer
    } else if same_text(name, "aluminum") || same_text(name, "aluminium") || same_text(name, "alu")
        || same_text(name, "al") {
        FrameMaterial::Aluminum
    } else {
        FrameMaterial::Other
    }
}

/// The material that a record names, in any case.
pub fn parse_frame_material(s: &str) -> (r: FrameMaterial)
    ensures
        r == frame_material(text::lowered(s@)),
{
    frame_material_of(lowercase(s).as_str())
}

/// The inertial measurement unit of a lower-case name without separators.
pub open spec fn imu_chip(name: Seq<char>) -> ImuChip {
    if name == "mpu6000"@ || name == "mpu6000p"@ {
        ImuChip::Mpu6000
    } else if name == "mpu6500"@ || name == "mpu6500p"@ {
        ImuChip::Mpu6500
    } else if name == "icm20689"@ || name == "icm20689p"@ {
        ImuChip::Icm20689
    } else if name == "icm42688p"@ || name == "icm42688"@ {
        ImuChip::Icm42688p
    } else if name == "bmi270"@ {
        ImuChip::Bmi270
    } else if name == "lsm6dso"@ || name == "lsm6dso32"@ {
        ImuChip::Lsm6dso
    } else {
        ImuChip::Other
    }
}

/// The inertial measurement unit of a lower-case name.
pub fn imu_chip_of(lower: &str) -> (r: ImuChip)
    ensures
        r == imu_chip(text::squeezed(lower@)),
{
    let squeezed: String = squeeze(lower);
    let name: &str = squeezed.as_str();
    if same_text(name, "mpu6000") || same_text(name, "mpu6000p") {
        ImuChip::Mpu6000
    } else if same_text(name, "mpu6500") || same_text(name, "mpu6500p") {
        ImuChip::Mpu6500
    } else if same_text(name, "icm20689") || same_text(name, "icm20689p") {
        ImuChip::Icm20689
    } else if same_text(name, "icm42688p") || same_text(name, "icm42688") {
        ImuChip::Icm42688p
    } else if same_text(name, "bmi270") {
        ImuChip::Bmi270
    } else if same_text(name, "lsm6dso") || same_text(name, "lsm6dso32") {
        ImuChip::Lsm6dso
    } else {
        ImuChip::Other
    }
}

/// The inertial measurement unit that a record names, in any case, with or
/// without separators.
pub fn parse_imu_chip(s: &str) -> (r: ImuChip)
    ensures
        r == imu_chip(text::squeezed(text::lowered(s@))),
{
    imu_chip_of(lowercase(s).as_str())
}

/// The barometer of a lower-case name without separators.
pub open spec fn baro_chip(name: Seq<char>) -> BaroChip {
    if name == "bmp280"@ {
        BaroChip::Bmp280
    } else if name == "bmp388"@ || name == "bmp390"@ {
        BaroChip::Bmp388
    } else if name == "dps310"@ {
        BaroChip::Dps310
    } else if name == "spl06"@ || name == "spl06001"@ {
        BaroChip::Spl06
    } else if name == "ms5611"@ || name == "ms561101ba03"@ {
        BaroChip::Ms5611
    } else {
        BaroChip::Other
    }
}

/// The barometer of a lower-case name.
pub fn baro_chip_of(lower: &str) -> (r: BaroChip)
    ensures
        r == baro_chip(text::squeezed(lower@)),
{
    let squeezed: String = squeeze(lower);
    let name: &str = squeezed.as_str();
    if same_text(name, "bmp280") {
        BaroChip::Bmp280
    } else if same_text(name, "bmp388") || same_text(name, "bmp390") {
        BaroChip::Bmp388
    } else if same_text(name, "dps310") {
        BaroChip::Dps310
    } else if same_text(name, "spl06") || same_text(name, "spl06001") {
        BaroChip::Spl06
    } else if same_text(name, "ms5611") || same_text(name, "ms561101ba03") {
        BaroChip::Ms5611
    } else {
        BaroChip::Other
    }
}

/// The barometer that a record names, in any case, with or without separators.
pub fn parse_baro_chip(s: &str) -> (r: BaroChip)
    ensures
        r == baro_chip(text::squeezed(text::lowered(s@))),
{
    baro_chip_of(lowercase(s).as_str())
}

/// The magnetometer of a lower-case name without separators.
pub open spec fn mag_chip(name: Seq<char>) -> MagChip {
    if name == "hmc5883"@ || name == "hmc5883l"@ {
        MagChip::Hmc5883
    } else if name == "qmc5883"@ || name == "qmc5883l"@ {
        MagChip::Qmc5883
    } else if name == "ist8310"@ {
        MagChip::Ist8310
    } else if name == "rm3100"@ {
        MagChip::Rm3100
    } else if name == "lis3mdl"@ {
        MagChip::Lis3mdl
    } else if name == "none"@ || name.len() == 0 {
        MagChip::Absent
    } else {
        MagChip::Other
    }
}

/// The magnetometer of a lower-case name.
pub fn mag_chip_of(lower: &str) -> (r: MagChip)
    ensures
        r == mag_chip(text::squeezed(lower@)),
{
    let squeezed: String = squeeze(lower);
    let name: &str = squeezed.as_str();
    if same_text(name, "hmc5883") || same_text(name, "hmc5883l") {
        MagChip::Hmc5883
    } else if same_text(name, "qmc5883") || same_text(name, "qmc5883l") {
        MagChip::Qmc5883
    } else if same_text(name, "ist8310") {
        MagChip::Ist8310
    } else if same_text(name, "rm3100") {
        MagChip::Rm3100
    } else if same_text(name, "lis3mdl") {
        MagChip::Lis3mdl
    } else if same_text(name, "none") || name.unicode_len() == 0 {
        MagChip::Absent
    } else {
        MagChip::Other
    }
}

/// The magnetometer that a record names, in any case, with or without
/// separators.
pub fn parse_mag_chip(s: &str) -> (r: MagChip)
    ensures
        r == mag_chip(text::squeezed(text::lowered(s@))),
{
    mag_chip_of(lowercase(s).as_str())
}

/// The GPS chipset of a lower-case name without separators. Product names
/// carry the chipset somewhere within.
pub open spec fn gps_chipset(name: Seq<char>) -> GpsChipset {
    if text::occurs(name, "f9p"@) || text::occurs(name, "zedf9p"@) {
        GpsChipset::UbloxF9P
    } else if text::occurs(name, "m10"@) {
        GpsChipset::UbloxM10
    } else if text::occurs(name, "m9"@) {
        GpsChipset::UbloxM9N
    } else if text::occurs(name, "m8"@) {
        GpsChipset::UbloxM8N
    } else if text::occurs(name, "mosaic"@) || text::occurs(name, "septentrio"@) {
        GpsChipset::SeptentrioMosaic
    } else if text::occurs(name, "here3"@) {
        GpsChipset::Here3
    } else {
        GpsChipset::Other
    }
}

/// The GPS chipset of a lower-case name.
pub fn gps_chipset_of(lower: &str) -> (r: GpsChipset)
    ensures
        r == gps_chipset(text::squeezed(lower@)),
{
    let squeezed: String = squeeze(lower);
    let name: &str = squeezed.as_str();
    if contains_text(name, "f9p") || contains_text(name, "zedf9p") {
        GpsChipset::UbloxF9P
    } else if contains_text(name, "m10") {
        GpsChipset::UbloxM10
    } else if contains_text(name, "m9") {
        GpsChipset::UbloxM9N
    } else if contains_text(name, "m8") {
        GpsChipset::UbloxM8N
    } else if contains_text(name, "mosaic") || contains_text(name, "septentrio") {
        GpsChipset::SeptentrioMosaic
    } else if contains_text(name, "here3") {
        GpsChipset::Here3
    } else {
        GpsChipset::Other
    }
}

/// The GPS chipset that a record names, in any case, with or without
/// separators.
pub fn parse_gps_chipset(s: &str) -> (r: GpsChipset)
    ensures
        r == gps_chipset(text::squeezed(text::lowered(s@))),
{
    gps_chipset_of(lowercase(s).as_str())
}

/// The spellings of each of the materials; every other name is none of them.
pub proof fn law_the_spellings_of_materials(name: Seq<char>)
    ensures
        frame_material(name) == FrameMaterial::Carbon <==> (name == "carbon"@ || name == "carbon fiber"@ || name == "cf"@),
        frame_material(name) == FrameMaterial::Polymer <==> (name == "polymer"@ || name == "plastic"@ || name == "abs"@ || name == "polycarbonate"@),
        frame_material(name) == FrameMaterial::Aluminum <==> (name == "aluminum"@ || name == "aluminium"@ || name == "alu"@ || name == "al"@),
{
    reveal_strlit("carbon");
    reveal_strlit("carbon fiber");
    reveal_strlit("cf");
    reveal_strlit("polymer");
    reveal_strlit("plastic");
    reveal_strlit("abs");
    reveal_strlit("polycarbonate");
    reveal_strlit("aluminum");
    reveal_strlit("aluminium");
    reveal_strlit("alu");
    reveal_strlit("al");
    assert("carbon"@.len() == 6);
    assert("carbon"@[0] == 'c');
    assert("carbon"@[1] == 'a');
    assert("carbon"@[2] == 'r');
    assert("carbon"@[3] == 'b');
    assert("carbon"@[4] == 'o');
    assert("carbon"@[5] == 'n');
    assert("carbon fiber"@.len() == 12);
    assert("carbon fiber"@[0] == 'c');
    assert("carbon fiber"@[1] == 'a');
    assert("carbon fiber"@[2] == 'r');
    assert("carbon fiber"@[3] == 'b');
    assert("carbon fiber"@[4] == 'o');
    assert("carbon fiber"@[5] == 'n');
    assert("carbon fiber"@[6] == ' ');
    assert("carbon fiber"@[7] == 'f');
    assert("carbon fiber"@[8] == 'i');
    assert("carbon fiber"@[9] == 'b');
    assert("carbon fiber"@[10] == 'e');
    assert("carbon fiber"@[11] == 'r');
    assert("cf"@.len() == 2);
    assert("cf"@[0] == 'c');
    assert("cf"@[1] == 'f');
    assert("polymer"@.len() == 7);
    assert("polymer"@[0] == 'p');
    assert("polymer"@[1] == 'o');
    assert("polymer"@[2] == 'l');
    assert("polymer"@[3] == 'y');
    assert("polymer"@[4] == 'm');
    assert("polymer"@[5] == 'e');
    assert("polymer"@[6] == 'r');
    assert("plastic"@.len() == 7);
    assert("plastic"@[0] == 'p');
    assert("plastic"@[1] == 'l');
    assert("plastic"@[2] == 'a');
    assert("plastic"@[3] == 's');
    assert("plastic"@[4] == 't');
    assert("plastic"@[5] == 'i');
    assert("plastic"@[6] == 'c');
    assert("abs"@.len() == 3);
    assert("abs"@[0] == 'a');
    assert("abs"@[1] == 'b');
    assert("abs"@[2] == 's');
    assert("polycarbonate"@.len() == 13);
    assert("polycarbonate"@[0] == 'p');
    assert("polycarbonate"@[1] == 'o');
    assert("polycarbonate"@[2] == 'l');
    assert("polycarbonate"@[3] == 'y');
    assert("polycarbonate"@[4] == 'c');
    assert("polycarbonate"@[5] == 'a');
    assert("polycarbonate"@[6] == 'r');
    assert("polycarbonate"@[7] == 'b');
    assert("polycarbonate"@[8] == 'o');
    assert("polycarbonate"@[9] == 'n');
    assert("polycarbonate"@[10] == 'a');
    assert("polycarbonate"@[11] == 't');
    assert("polycarbonate"@[12] == 'e');
    assert("aluminum"@.len() == 8);
    assert("aluminum"@[0] == 'a');
    assert("aluminum"@[1] == 'l');
    assert("aluminum"@[2] == 'u');
    assert("aluminum"@[3] == 'm');
    assert("aluminum"@[4] == 'i');
    assert("aluminum"@[5] == 'n');
    assert("aluminum"@[6] == 'u');
    assert("aluminum"@[7] == 'm');
    assert("aluminium"@.len() == 9);
    assert("aluminium"@[0] == 'a');
    assert("aluminium"@[1] == 'l');
    assert("aluminium"@[2] == 'u');
    assert("aluminium"@[3] == 'm');
    assert("aluminium"@[4] == 'i');
    assert("aluminium"@[5] == 'n');
    assert("aluminium"@[6] == 'i');
    assert("aluminium"@[7] == 'u');
    assert("aluminium"@[8] == 'm');
    assert("alu"@.len() == 3);
    assert("alu"@[0] == 'a');
    assert("alu"@[1] == 'l');
    assert("alu"@[2] == 'u');
    assert("al"@.len() == 2);
    assert("al"@[0] == 'a');
    assert("al"@[1] == 'l');
}

/// The spellings of each of the inertial measurement units; every other name is none of them.
pub proof fn law_the_spellings_of_inertial_measurement_units(name: Seq<char>)
    ensures
        imu_chip(name) == ImuChip::Mpu6000 <==> (name == "mpu6000"@ || name == "mpu6000p"@),
        imu_chip(name) == ImuChip::Mpu6500 <==> (name == "mpu6500"@ || name == "mpu6500p"@),
        imu_chip(name) == ImuChip::Icm20689 <==> (name == "icm20689"@ || name == "icm20689p"@),
        imu_chip(name) == ImuChip::Icm42688p <==> (name == "icm42688p"@ || name == "icm42688"@),
        imu_chip(name) == ImuChip::Bmi270 <==> (name == "bmi270"@),
        imu_chip(name) == ImuChip::Lsm6dso <==> (name == "lsm6dso"@ || name == "lsm6dso32"@),
{
    reveal_strlit("mpu6000");
    reveal_strlit("mpu6000p");
    reveal_strlit("mpu6500");
    reveal_strlit("mpu6500p");
    reveal_strlit("icm20689");
    reveal_strlit("icm20689p");
    reveal_strlit("icm42688p");
    reveal_strlit("icm42688");
    reveal_strlit("bmi270");
    reveal_strlit("lsm6dso");
    reveal_strlit("lsm6dso32");
    assert("mpu6000"@.len() == 7);
    assert("mpu6000"@[0] == 'm');
    assert("mpu6000"@[1] == 'p');
    assert("mpu6000"@[2] == 'u');
    assert("mpu6000"@[3] == '6');
    assert("mpu6000"@[4] == '0');
    assert("mpu6000"@[5] == '0');
    assert("mpu6000"@[6] == '0');
    assert("mpu6000p"@.len() == 8);
    assert("mpu6000p"@[0] == 'm');
    assert("mpu6000p"@[1] == 'p');
    assert("mpu6000p"@[2] == 'u');
    assert("mpu6000p"@[3] == '6');
    assert("mpu6000p"@[4] == '0');
    assert("mpu6000p"@[5] == '0');
    assert("mpu6000p"@[6] == '0');
    assert("mpu6000p"@[7] == 'p');
    assert("mpu6500"@.len() == 7);
    assert("mpu6500"@[0] == 'm');
    assert("mpu6500"@[1] == 'p');
    assert("mpu6500"@[2] == 'u');
    assert("mpu6500"@[3] == '6');
    assert("mpu6500"@[4] == '5');
    assert("mpu6500"@[5] == '0');
    assert("mpu6500"@[6] == '0');
    assert("mpu6500p"@.len() == 8);
    assert("mpu6500p"@[0] == 'm');
    assert("mpu6500p"@[1] == 'p');
    assert("mpu6500p"@[2] == 'u');
    assert("mpu6500p"@[3] == '6');
    assert("mpu6500p"@[4] == '5');
    assert("mpu6500p"@[5] == '0');
    assert("mpu6500p"@[6] == '0');
    assert("mpu6500p"@[7] == 'p');
    assert("icm20689"@.len() == 8);
    assert("icm20689"@[0] == 'i');
    assert("icm20689"@[1] == 'c');
    assert("icm20689"@[2] == 'm');
    assert("icm20689"@[3] == '2');
    assert("icm20689"@[4] == '0');
    assert("icm20689"@[5] == '6');
    assert("icm20689"@[6] == '8');
    assert("icm20689"@[7] == '9');
    assert("icm20689p"@.len() == 9);
    assert("icm20689p"@[0] == 'i');
    assert("icm20689p"@[1] == 'c');
    assert("icm20689p"@[2] == 'm');
    assert("icm20689p"@[3] == '2');
    assert("icm20689p"@[4] == '0');
    assert("icm20689p"@[5] == '6');
    assert("icm20689p"@[6] == '8');
    assert("icm20689p"@[7] == '9');
    assert("icm20689p"@[8] == 'p');
    assert("icm42688p"@.len() == 9);
    assert("icm42688p"@[0] == 'i');
    assert("icm42688p"@[1] == 'c');
    assert("icm42688p"@[2] == 'm');
    assert("icm42688p"@[3] == '4');
    assert("icm42688p"@[4] == '2');
    assert("icm42688p"@[5] == '6');
    assert("icm42688p"@[6] == '8');
    assert("icm42688p"@[7] == '8');
    assert("icm42688p"@[8] == 'p');
    assert("icm42688"@.len() == 8);
    assert("icm42688"@[0] == 'i');
    assert("icm42688"@[1] == 'c');
    assert("icm42688"@[2] == 'm');
    assert("icm42688"@[3] == '4');
    assert("icm42688"@[4] == '2');
    assert("icm42688"@[5] == '6');
    assert("icm42688"@[6] == '8');
    assert("icm42688"@[7] == '8');
    assert("bmi270"@.len() == 6);
    assert("bmi270"@[0] == 'b');
    assert("bmi270"@[1] == 'm');
    assert("bmi270"@[2] == 'i');
    assert("bmi270"@[3] == '2');
    assert("bmi270"@[4] == '7');
    assert("bmi270"@[5] == '0');
    assert("lsm6dso"@.len() == 7);
    assert("lsm6dso"@[0] == 'l');
    assert("lsm6dso"@[1] == 's');
    assert("lsm6dso"@[2] == 'm');
    assert("lsm6dso"@[3] == '6');
    assert("lsm6dso"@[4] == 'd');
    assert("lsm6dso"@[5] == 's');
    assert("lsm6dso"@[6] == 'o');
    assert("lsm6dso32"@.len() == 9);
    assert("lsm6dso32"@[0] == 'l');
    assert("lsm6dso32"@[1] == 's');
    assert("lsm6dso32"@[2] == 'm');
    assert("lsm6dso32"@[3] == '6');
    assert("lsm6dso32"@[4] == 'd');
    assert("lsm6dso32"@[5] == 's');
    assert("lsm6dso32"@[6] == 'o');
    assert("lsm6dso32"@[7] == '3');
    assert("lsm6dso32"@[8] == '2');
}

/// The spellings of each of the barometers; every other name is none of them.
pub proof fn law_the_spellings_of_barometers(name: Seq<char>)
    ensures
        baro_chip(name) == BaroChip::Bmp280 <==> (name == "bmp280"@),
        baro_chip(name) == BaroChip::Bmp388 <==> (name == "bmp388"@ || name == "bmp390"@),
        baro_chip(name) == BaroChip::Dps310 <==> (name == "dps310"@),
        baro_chip(name) == BaroChip::Spl06 <==> (name == "spl06"@ || name == "spl06001"@),
        baro_chip(name) == BaroChip::Ms5611 <==> (name == "ms5611"@ || name == "ms561101ba03"@),
{
    reveal_strlit("bmp280");
    reveal_strlit("bmp388");
    reveal_strlit("bmp390");
    reveal_strlit("dps310");
    reveal_strlit("spl06");
    reveal_strlit("spl06001");
    reveal_strlit("ms5611");
    reveal_strlit("ms561101ba03");
    assert("bmp280"@.len() == 6);
    assert("bmp280"@[0] == 'b');
    assert("bmp280"@[1] == 'm');
    assert("bmp280"@[2] == 'p');
    assert("bmp280"@[3] == '2');
    assert("bmp280"@[4] == '8');
    assert("bmp280"@[5] == '0');
    assert("bmp388"@.len() == 6);
    assert("bmp388"@[0] == 'b');
    assert("bmp388"@[1] == 'm');
    assert("bmp388"@[2] == 'p');
    assert("bmp388"@[3] == '3');
    assert("bmp388"@[4] == '8');
    assert("bmp388"@[5] == '8');
    assert("bmp390"@.len() == 6);
    assert("bmp390"@[0] == 'b');
    assert("bmp390"@[1] == 'm');
    assert("bmp390"@[2] == 'p');
    assert("bmp390"@[3] == '3');
    assert("bmp390"@[4] == '9');
    assert("bmp390"@[5] == '0');
    assert("dps310"@.len() == 6);
    assert("dps310"@[0] == 'd');
    assert("dps310"@[1] == 'p');
    assert("dps310"@[2] == 's');
    assert("dps310"@[3] == '3');
    assert("dps310"@[4] == '1');
    assert("dps310"@[5] == '0');
    assert("spl06"@.len() == 5);
    assert("spl06"@[0] == 's');
    assert("spl06"@[1] == 'p');
    assert("spl06"@[2] == 'l');
    assert("spl06"@[3] == '0');
    assert("spl06"@[4] == '6');
    assert("spl06001"@.len() == 8);
    assert("spl06001"@[0] == 's');
    assert("spl06001"@[1] == 'p');
    assert("spl06001"@[2] == 'l');
    assert("spl06001"@[3] == '0');
    assert("spl06001"@[4] == '6');
    assert("spl06001"@[5] == '0');
    assert("spl06001"@[6] == '0');
    assert("spl06001"@[7] == '1');
    assert("ms5611"@.len() == 6);
    assert("ms5611"@[0] == 'm');
    assert("ms5611"@[1] == 's');
    assert("ms5611"@[2] == '5');
    assert("ms5611"@[3] == '6');
    assert("ms5611"@[4] == '1');
    assert("ms5611"@[5] == '1');
    assert("ms561101ba03"@.len() == 12);
    assert("ms561101ba03"@[0] == 'm');
    assert("ms561101ba03"@[1] == 's');
    assert("ms561101ba03"@[2] == '5');
    assert("ms561101ba03"@[3] == '6');
    assert("ms561101ba03"@[4] == '1');
    assert("ms561101ba03"@[5] == '1');
    assert("ms561101ba03"@[6] == '0');
    assert("ms561101ba03"@[7] == '1');
    assert("ms561101ba03"@[8] == 'b');
    assert("ms561101ba03"@[9] == 'a');
    assert("ms561101ba03"@[10] == '0');
    assert("ms561101ba03"@[11] == '3');
}

/// The spellings of each of the magnetometers; every other name is none of them.
pub proof fn law_the_spellings_of_magnetometers(name: Seq<char>)
    ensures
        mag_chip(name) == MagChip::Hmc5883 <==> (name == "hmc5883"@ || name == "hmc5883l"@),
        mag_chip(name) == MagChip::Qmc5883 <==> (name == "qmc5883"@ || name == "qmc5883l"@),
        mag_chip(name) == MagChip::Ist8310 <==> (name == "ist8310"@),
        mag_chip(name) == MagChip::Rm3100 <==> (name == "rm3100"@),
        mag_chip(name) == MagChip::Lis3mdl <==> (name == "lis3mdl"@),
        mag_chip(name) == MagChip::Absent <==> (name == "none"@ || name.len() == 0),
{
    reveal_strlit("hmc5883");
    reveal_strlit("hmc5883l");
    reveal_strlit("qmc5883");
    reveal_strlit("qmc5883l");
    reveal_strlit("ist8310");
    reveal_strlit("rm3100");
    reveal_strlit("lis3mdl");
    reveal_strlit("none");
    assert("hmc5883"@.len() == 7);
    assert("hmc5883"@[0] == 'h');
    assert("hmc5883"@[1] == 'm');
    assert("hmc5883"@[2] == 'c');
    assert("hmc5883"@[3] == '5');
    assert("hmc5883"@[4] == '8');
    assert("hmc5883"@[5] == '8');
    assert("hmc5883"@[6] == '3');
    assert("hmc5883l"@.len() == 8);
    assert("hmc5883l"@[0] == 'h');
    assert("hmc5883l"@[1] == 'm');
    assert("hmc5883l"@[2] == 'c');
    assert("hmc5883l"@[3] == '5');
    assert("hmc5883l"@[4] == '8');
    assert("hmc5883l"@[5] == '8');
    assert("hmc5883l"@[6] == '3');
    assert("hmc5883l"@[7] == 'l');
    assert("qmc5883"@.len() == 7);
    assert("qmc5883"@[0] == 'q');
    assert("qmc5883"@[1] == 'm');
    assert("qmc5883"@[2] == 'c');
    assert("qmc5883"@[3] == '5');
    assert("qmc5883"@[4] == '8');
    assert("qmc5883"@[5] == '8');
    assert("qmc5883"@[6] == '3');
    assert("qmc5883l"@.len() == 8);
    assert("qmc5883l"@[0] == 'q');
    assert("qmc5883l"@[1] == 'm');
    assert("qmc5883l"@[2] == 'c');
    assert("qmc5883l"@[3] == '5');
    assert("qmc5883l"@[4] == '8');
    assert("qmc5883l"@[5] == '8');
    assert("qmc5883l"@[6] == '3');
    assert("qmc5883l"@[7] == 'l');
    assert("ist8310"@.len() == 7);
    assert("ist8310"@[0] == 'i');
    assert("ist8310"@[1] == 's');
    assert("ist8310"@[2] == 't');
    assert("ist8310"@[3] == '8');
    assert("ist8310"@[4] == '3');
    assert("ist8310"@[5] == '1');
    assert("ist8310"@[6] == '0');
    assert("rm3100"@.len() == 6);
    assert("rm3100"@[0] == 'r');
    assert("rm3100"@[1] == 'm');
    assert("rm3100"@[2] == '3');
    assert("rm3100"@[3] == '1');
    assert("rm3100"@[4] == '0');
    assert("rm3100"@[5] == '0');
    assert("lis3mdl"@.len() == 7);
    assert("lis3mdl"@[0] == 'l');
    assert("lis3mdl"@[1] == 'i');
    assert("lis3mdl"@[2] == 's');
    assert("lis3mdl"@[3] == '3');
    assert("lis3mdl"@[4] == 'm');
    assert("lis3mdl"@[5] == 'd');
    assert("lis3mdl"@[6] == 'l');
    assert("none"@.len() == 4);
    assert("none"@[0] == 'n');
    assert("none"@[1] == 'o');
    assert("none"@[2] == 'n');
    assert("none"@[3] == 'e');
}

/// A product name with a chipset somewhere in it is of that chipset, whatever
/// stands around it; the finer chipset counts where there are several.
pub proof fn law_a_product_name_carries_its_chipset(before: Seq<char>, after: Seq<char>)
    ensures
        gps_chipset(before + "f9p"@ + after) is UbloxF9P,
        !text::occurs(before + "m10"@ + after, "f9p"@) && !text::occurs(
            before + "m10"@ + after,
            "zedf9p"@,
        ) ==> gps_chipset(before + "m10"@ + after) is UbloxM10,
{
    text::law_a_part_occurs_in_the_whole(before, "f9p"@, after);
    text::law_a_part_occurs_in_the_whole(before, "m10"@, after);
}

/// Which chipset a name is of depends only on which of the known names occur in
/// it, looked for in this order.
pub proof fn law_how_a_chipset_is_told(name: Seq<char>)
    ensures
        ({
            let f9p = text::occurs(name, "f9p"@) || text::occurs(name, "zedf9p"@);
            let m10 = text::occurs(name, "m10"@);
            let m9 = text::occurs(name, "m9"@);
            let m8 = text::occurs(name, "m8"@);
            let mosaic = text::occurs(name, "mosaic"@) || text::occurs(name, "septentrio"@);
            let here3 = text::occurs(name, "here3"@);
            &&& gps_chipset(name) is UbloxF9P <==> f9p
            &&& gps_chipset(name) is UbloxM10 <==> !f9p && m10
            &&& gps_chipset(name) is UbloxM9N <==> !f9p && !m10 && m9
            &&& gps_chipset(name) is UbloxM8N <==> !f9p && !m10 && !m9 && m8
            &&& gps_chipset(name) is SeptentrioMosaic <==> !f9p && !m10 && !m9 && !m8 && mosaic
            &&& gps_chipset(name) is Here3 <==> !f9p && !m10 && !m9 && !m8 && !mosaic && here3
        }),
{
}

} // verus!
