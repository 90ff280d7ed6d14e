//! The chip's register blocks, as handed out once by the device crate's
//! `Peripherals::take`. The library takes them by value, so a block that has
//! been claimed cannot be claimed again.
use vstd::prelude::*;
use stm32l0x1_hal::stm32l0x1::{FLASH, GPIOA, GPIOB, GPIOC, I2C1, PWR, RCC, USART2};

verus! {

#[verifier::external_type_specification]
#[verifier::external_body]
pub struct ExPWR(PWR);

#[verifier::external_type_specification]
#[verifier::external_body]
pub struct ExFLASH(FLASH);

#[verifier::external_type_specification]
#[verifier::external_body]
pub struct ExRCC(RCC);

#[verifier::external_type_specification]
#[verifier::external_body]
pub struct ExGPIOA(GPIOA);

#[verifier::external_type_specification]
#[verifier::external_body]
pub struct ExGPIOB(GPIOB);

#[verifier::external_type_specification]
#[verifier::external_body]
pub struct ExGPIOC(GPIOC);

#[verifier::external_type_specification]
#[verifier::external_body]
pub struct ExUSART2(USART2);

#[verifier::external_type_specification]
#[verifier::external_body]
pub struct ExI2C1(I2C1);

} // verus!
