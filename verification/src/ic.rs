//! Supported ICs (Integrated Circuits).

use vstd::prelude::*;

verus! {

/// 24x00 Serial EEPROM like 24C00.
pub struct IC24x00;

/// 24x01 Serial EEPROM like AT24C01.
pub struct IC24x01;

/// 24x02 Serial EEPROM like AT24C02.
pub struct IC24x02;

/// 24x04 Serial EEPROM like AT24C04.
pub struct IC24x04;

/// 24x08 Serial EEPROM like AT24C08.
pub struct IC24x08;

/// 24x16 Serial EEPROM like AT24C16.
pub struct IC24x16;

/// 24x32 Serial EEPROM like AT24C32.
pub struct IC24x32;

/// 24x64 Serial EEPROM like AT24C64.
pub struct IC24x64;

/// 24x128 Serial EEPROM like AT24C128.
pub struct IC24x128;

/// 24x256 Serial EEPROM like AT24C256.
pub struct IC24x256;

/// 24x512 Serial EEPROM like AT24C512.
pub struct IC24x512;

} // verus!
