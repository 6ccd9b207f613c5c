//! The GATT peripherals of the platforms that have a Bluetooth stack of their own.
use vstd::prelude::*;

verus! {

/// A GATT peripheral that uses a Bluetooth adapter of the system.
#[derive(Debug)]
pub struct BluerGattPeripheral<'a>(Option<&'a str>);

impl<'a> BluerGattPeripheral<'a> {
    /// The name of the Bluetooth adapter.
    pub closed spec fn adapter(&self) -> Option<&'a str> {
        self.0
    }

    /// Create a new `BluerGattPeripheral` that will use the Bluetooth adapter with the given name.
    /// If `adapter_name` is `None`, the default adapter will be used.
    pub fn new(adapter_name: Option<&'a str>) -> (r: Self)
        ensures
            r.adapter() == adapter_name,
    {
        Self(adapter_name)
    }

    /// Return the name of the Bluetooth adapter, or `None` for the default one.
    pub fn adapter_name(&self) -> (r: Option<&'a str>)
        ensures
            r == self.adapter(),
    {
        self.0
    }
}

/// A GATT peripheral that uses a Bluetooth adapter of the system over the message bus connection
/// `C`.
#[derive(Debug)]
pub struct BluezGattPeripheral<'a, C> {
    connection: &'a C,
    adapter_name: Option<&'a str>,
}

impl<'a, C> BluezGattPeripheral<'a, C> {
    /// The connection.
    pub closed spec fn bus(&self) -> &'a C {
        self.connection
    }

    /// The name of the Bluetooth adapter.
    pub closed spec fn adapter(&self) -> Option<&'a str> {
        self.adapter_name
    }

    /// Create a new `BluezGattPeripheral` that will use the Bluetooth adapter with the given name.
    /// If `adapter_name` is `None`, the default adapter will be used.
    pub fn new(connection: &'a C, adapter_name: Option<&'a str>) -> (r: Self)
        ensures
            r.bus() == connection,
            r.adapter() == adapter_name,
    {
        Self { connection, adapter_name }
    }

    /// Return the connection.
    pub fn connection(&self) -> (r: &'a C)
        ensures
            r == self.bus(),
    {
        self.connection
    }

    /// Return the name of the Bluetooth adapter, or `None` for the default one.
    pub fn adapter_name(&self) -> (r: Option<&'a str>)
        ensures
            r == self.adapter(),
    {
        self.adapter_name
    }
}

} // verus!
