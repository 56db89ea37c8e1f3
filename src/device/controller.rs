use vstd::prelude::*;

verus! {

/// Button bits of a controller state byte; A is shifted out first.
pub const BUTTON_A: u8 = 0x80;
pub const BUTTON_B: u8 = 0x40;
pub const BUTTON_SELECT: u8 = 0x20;
pub const BUTTON_START: u8 = 0x10;
pub const BUTTON_UP: u8 = 0x08;
pub const BUTTON_DOWN: u8 = 0x04;
pub const BUTTON_LEFT: u8 = 0x02;
pub const BUTTON_RIGHT: u8 = 0x01;

#[derive(Debug, Clone, Copy, PartialEq, Eq, Structural)]
pub enum ControllerPort {
    PortA,
    PortB,
}

/// The two controller ports: each an 8-bit shift register fed from a
/// buffered button state while the strobe latch is set.
pub struct Controller {
    pub shift_a: u8,
    pub shift_b: u8,
    pub buffer_a: u8,
    pub buffer_b: u8,
    pub latch: bool,
}

impl Controller {
    pub open spec fn shift_of(&self, port: ControllerPort) -> u8 {
        match port {
            ControllerPort::PortA => self.shift_a,
            ControllerPort::PortB => self.shift_b,
        }
    }

    pub open spec fn buffer_of(&self, port: ControllerPort) -> u8 {
        match port {
            ControllerPort::PortA => self.buffer_a,
            ControllerPort::PortB => self.buffer_b,
        }
    }

    /// The register that a read of `port` shifts: refreshed from the buffer
    /// while latched.
    pub open spec fn source_of(&self, port: ControllerPort) -> u8 {
        if self.latch {
            self.buffer_of(port)
        } else {
            self.shift_of(port)
        }
    }

    pub fn new() -> (r: Controller)
        ensures
            r.shift_a == 0 && r.shift_b == 0,
            r.buffer_a == 0 && r.buffer_b == 0,
            !r.latch,
    {
        Controller { shift_a: 0, shift_b: 0, buffer_a: 0, buffer_b: 0, latch: false }
    }

    /// Stores the button states that the next strobe will capture.
    pub fn update_state(&mut self, controller_a: u8, controller_b: u8)
        ensures
            *final(self) == (Controller {
                buffer_a: controller_a,
                buffer_b: controller_b,
                ..*old(self)
            }),
    {
        self.buffer_a = controller_a;
        self.buffer_b = controller_b;
    }

    /// What a read of `port` returns and how it shifts the register.
    pub open spec fn read_done(o: Controller, f: Controller, port: ControllerPort, r: u8) -> bool {
        &&& (r == o.source_of(port) >> 7u8)
        &&& (f.shift_of(port) == (o.source_of(port) << 1u8))
        &&& (port == ControllerPort::PortA ==> f.shift_b == o.shift_b)
        &&& (port == ControllerPort::PortB ==> f.shift_a == o.shift_a)
        &&& (f.buffer_a == o.buffer_a)
        &&& (f.buffer_b == o.buffer_b)
        &&& (f.latch == o.latch)
    }

    /// Returns the top bit of the port's register and shifts it left.
    pub fn read(&mut self, port: ControllerPort) -> (r: u8)
        ensures
            Self::read_done(*old(self), *final(self), port, r),
    {
        match port {
            ControllerPort::PortA => {
                if self.latch {
                    self.shift_a = self.buffer_a;
                }
                let result = self.shift_a >> 7u8;
                self.shift_a = self.shift_a << 1u8;
                result
            },
            ControllerPort::PortB => {
                if self.latch {
                    self.shift_b = self.buffer_b;
                }
                let result = self.shift_b >> 7u8;
                self.shift_b = self.shift_b << 1u8;
                result
            },
        }
    }

    /// How a write of `data` to 0x4016 changes the controllers.
    pub open spec fn written(o: Controller, f: Controller, data: u8) -> bool {
        &&& (data & 1 != 0 ==> f == (Controller { latch: true, ..o }))
        &&& (data & 1 == 0 && o.latch ==> f == (Controller {
                shift_a: o.buffer_a,
                shift_b: o.buffer_b,
                latch: false,
                ..o
            }))
        &&& (data & 1 == 0 && !o.latch ==> f == o)
    }

    /// Bit 0 set raises the strobe; bit 0 clear while raised captures the
    /// buffers into the shift registers and lowers it.
    pub fn write(&mut self, data: u8)
        ensures
            Self::written(*old(self), *final(self), data),
    {
        if (data & 0x01) != 0 {
            self.latch = true;
        } else if self.latch {
            self.shift_a = self.buffer_a;
            self.shift_b = self.buffer_b;
            self.latch = false;
        }
    }
}

} // verus!
