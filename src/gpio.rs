use vstd::prelude::*;

verus! {

/// Number of user GPIOs in bank 0.
pub const NUM_BANK0_GPIOS: u32 = 32;

/// Direction value of a GPIO driven as an output.
pub const GPIO_OUT: u32 = 1;

/// Direction value of a GPIO read as an input.
pub const GPIO_IN: u32 = 0;

/// Whether `gpio` names a GPIO of bank 0.
pub fn check_gpio_param(gpio: u32) -> (r: bool)
    ensures
        r == (gpio < NUM_BANK0_GPIOS),
{
    gpio < NUM_BANK0_GPIOS
}

/// Function selected for a GPIO.
#[allow(non_camel_case_types)]
#[derive(Clone, Copy, Debug, PartialEq, Eq, Structural)]
pub enum gpio_function {
    GPIO_FUNC_XIP,
    GPIO_FUNC_SPI,
    GPIO_FUNC_UART,
    GPIO_FUNC_I2C,
    GPIO_FUNC_PWM,
    GPIO_FUNC_SIO,
    GPIO_FUNC_PIO0,
    GPIO_FUNC_PIO1,
    GPIO_FUNC_GPCK,
    GPIO_FUNC_USB,
    GPIO_FUNC_NULL,
}

impl gpio_function {
    /// The hardware value of the variant.
    pub open spec fn spec_value(self) -> u32 {
        match self {
            gpio_function::GPIO_FUNC_XIP => 0,
            gpio_function::GPIO_FUNC_SPI => 1,
            gpio_function::GPIO_FUNC_UART => 2,
            gpio_function::GPIO_FUNC_I2C => 3,
            gpio_function::GPIO_FUNC_PWM => 4,
            gpio_function::GPIO_FUNC_SIO => 5,
            gpio_function::GPIO_FUNC_PIO0 => 6,
            gpio_function::GPIO_FUNC_PIO1 => 7,
            gpio_function::GPIO_FUNC_GPCK => 8,
            gpio_function::GPIO_FUNC_USB => 9,
            gpio_function::GPIO_FUNC_NULL => 0x1f,
        }
    }

    /// The hardware value of the variant.
    pub fn value(&self) -> (r: u32)
        ensures
            r == self.spec_value(),
    {
        match self {
            gpio_function::GPIO_FUNC_XIP => 0,
            gpio_function::GPIO_FUNC_SPI => 1,
            gpio_function::GPIO_FUNC_UART => 2,
            gpio_function::GPIO_FUNC_I2C => 3,
            gpio_function::GPIO_FUNC_PWM => 4,
            gpio_function::GPIO_FUNC_SIO => 5,
            gpio_function::GPIO_FUNC_PIO0 => 6,
            gpio_function::GPIO_FUNC_PIO1 => 7,
            gpio_function::GPIO_FUNC_GPCK => 8,
            gpio_function::GPIO_FUNC_USB => 9,
            gpio_function::GPIO_FUNC_NULL => 0x1f,
        }
    }
}

/// Condition on which a GPIO raises an interrupt.
#[allow(non_camel_case_types)]
#[derive(Clone, Copy, Debug, PartialEq, Eq, Structural)]
pub enum gpio_irq_level {
    GPIO_IRQ_LEVEL_LOW,
    GPIO_IRQ_LEVEL_HIGH,
    GPIO_IRQ_EDGE_FALL,
    GPIO_IRQ_EDGE_RISE,
}

impl gpio_irq_level {
    /// The hardware value of the variant.
    pub open spec fn spec_value(self) -> u32 {
        match self {
            gpio_irq_level::GPIO_IRQ_LEVEL_LOW => 1,
            gpio_irq_level::GPIO_IRQ_LEVEL_HIGH => 2,
            gpio_irq_level::GPIO_IRQ_EDGE_FALL => 4,
            gpio_irq_level::GPIO_IRQ_EDGE_RISE => 8,
        }
    }

    /// The hardware value of the variant.
    pub fn value(&self) -> (r: u32)
        ensures
            r == self.spec_value(),
    {
        match self {
            gpio_irq_level::GPIO_IRQ_LEVEL_LOW => 1,
            gpio_irq_level::GPIO_IRQ_LEVEL_HIGH => 2,
            gpio_irq_level::GPIO_IRQ_EDGE_FALL => 4,
            gpio_irq_level::GPIO_IRQ_EDGE_RISE => 8,
        }
    }
}

/// Override applied to a GPIO signal.
#[allow(non_camel_case_types)]
#[derive(Clone, Copy, Debug, PartialEq, Eq, Structural)]
pub enum gpio_override {
    /// The peripheral signal as selected.
    GPIO_OVERRIDE_NORMAL,
    /// The peripheral signal, inverted.
    GPIO_OVERRIDE_INVERT,
    /// Drive low / disable the output.
    GPIO_OVERRIDE_LOW,
    /// Drive high / enable the output.
    GPIO_OVERRIDE_HIGH,
}

impl gpio_override {
    /// The hardware value of the variant.
    pub open spec fn spec_value(self) -> u32 {
        match self {
            gpio_override::GPIO_OVERRIDE_NORMAL => 0,
            gpio_override::GPIO_OVERRIDE_INVERT => 1,
            gpio_override::GPIO_OVERRIDE_LOW => 2,
            gpio_override::GPIO_OVERRIDE_HIGH => 3,
        }
    }

    /// The hardware value of the variant.
    pub fn value(&self) -> (r: u32)
        ensures
            r == self.spec_value(),
    {
        match self {
            gpio_override::GPIO_OVERRIDE_NORMAL => 0,
            gpio_override::GPIO_OVERRIDE_INVERT => 1,
            gpio_override::GPIO_OVERRIDE_LOW => 2,
            gpio_override::GPIO_OVERRIDE_HIGH => 3,
        }
    }
}

/// Output slew rate of a GPIO.
#[allow(non_camel_case_types)]
#[derive(Clone, Copy, Debug, PartialEq, Eq, Structural)]
pub enum gpio_slew_rate {
    /// Slew rate limiting on.
    GPIO_SLEW_RATE_SLOW,
    /// Slew rate limiting off.
    GPIO_SLEW_RATE_FAST,
}

impl gpio_slew_rate {
    /// The hardware value of the variant.
    pub open spec fn spec_value(self) -> u32 {
        match self {
            gpio_slew_rate::GPIO_SLEW_RATE_SLOW => 0,
            gpio_slew_rate::GPIO_SLEW_RATE_FAST => 1,
        }
    }

    /// The hardware value of the variant.
    pub fn value(&self) -> (r: u32)
        ensures
            r == self.spec_value(),
    {
        match self {
            gpio_slew_rate::GPIO_SLEW_RATE_SLOW => 0,
            gpio_slew_rate::GPIO_SLEW_RATE_FAST => 1,
        }
    }
}

/// Nominal output drive strength of a GPIO.
#[allow(non_camel_case_types)]
#[derive(Clone, Copy, Debug, PartialEq, Eq, Structural)]
pub enum gpio_drive_strength {
    /// 2 mA.
    GPIO_DRIVE_STRENGTH_2MA,
    /// 4 mA.
    GPIO_DRIVE_STRENGTH_4MA,
    /// 8 mA.
    GPIO_DRIVE_STRENGTH_8MA,
    /// 12 mA.
    GPIO_DRIVE_STRENGTH_12MA,
}

impl gpio_drive_strength {
    /// The hardware value of the variant.
    pub open spec fn spec_value(self) -> u32 {
        match self {
            gpio_drive_strength::GPIO_DRIVE_STRENGTH_2MA => 0,
            gpio_drive_strength::GPIO_DRIVE_STRENGTH_4MA => 1,
            gpio_drive_strength::GPIO_DRIVE_STRENGTH_8MA => 2,
            gpio_drive_strength::GPIO_DRIVE_STRENGTH_12MA => 3,
        }
    }

    /// The hardware value of the variant.
    pub fn value(&self) -> (r: u32)
        ensures
            r == self.spec_value(),
    {
        match self {
            gpio_drive_strength::GPIO_DRIVE_STRENGTH_2MA => 0,
            gpio_drive_strength::GPIO_DRIVE_STRENGTH_4MA => 1,
            gpio_drive_strength::GPIO_DRIVE_STRENGTH_8MA => 2,
            gpio_drive_strength::GPIO_DRIVE_STRENGTH_12MA => 3,
        }
    }
}

} // verus!
