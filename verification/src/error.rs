use vstd::prelude::*;

verus! {

/// Logical signal or interface of the bus wiring.  Transfer failures are
/// tagged with the port they occurred on, and bus-action queues name the
/// line each level change applies to.
#[derive(Clone, Copy, Debug, PartialEq, Eq, Structural)]
pub enum Port {
    /// Pin `D0` of an eight-bit bus.
    D0,
    /// Pin `D1` of an eight-bit bus.
    D1,
    /// Pin `D2` of an eight-bit bus.
    D2,
    /// Pin `D3` of an eight-bit bus.
    D3,
    /// Pin `D4` of a four-bit or eight-bit bus.
    D4,
    /// Pin `D5` of a four-bit or eight-bit bus.
    D5,
    /// Pin `D6` of a four-bit or eight-bit bus.
    D6,
    /// Pin `D7` of a four-bit or eight-bit bus.
    D7,
    /// The register-select pin.
    RS,
    /// The read/write-select pin.
    RW,
    /// The enable pin.
    EN,
    /// An I2C bus expander.
    I2C,
}

/// Driver error.
#[derive(Debug)]
pub enum Error<IoE> {
    /// An I/O primitive of the platform failed.
    Io {
        /// Which port (pin or interface) the error belongs to.
        port: Port,
        error: IoE,
    },
    /// Invalid coordinates on the display.
    Position { position: (u8, u8), size: (u8, u8) },
}

impl<IoE> Error<IoE> {
    /// Tag an underlying I/O error with the port it occurred on.
    pub fn wrap_io(port: Port, error: IoE) -> (r: Self)
        ensures
            r == (Error::Io { port, error }),
    {
        Error::Io { port, error }
    }
}

} // verus!
