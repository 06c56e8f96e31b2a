//! What is fixed of a Microfuchsia instance before it is started.

use vstd::prelude::*;

verus! {

/// Number of bytes in the identifier that a virtual machine is created with.
pub const INSTANCE_ID_LEN: usize = 64;

/// Name and number of an instance to start.
pub struct InstanceStarter {
    instance_name: String,
    instance_id: u8,
}

/// An instance starter with its name taken as a sequence of characters.
pub struct InstanceStarterView {
    pub instance_name: Seq<char>,
    pub instance_id: u8,
}

impl View for InstanceStarter {
    type V = InstanceStarterView;

    closed spec fn view(&self) -> InstanceStarterView {
        InstanceStarterView { instance_name: self.instance_name@, instance_id: self.instance_id }
    }
}

/// The identifier of the virtual machine of instance number `instance_id`:
/// the number in the first byte, and zeros after it.
pub open spec fn instance_id_bytes(instance_id: u8) -> Seq<u8> {
    Seq::new(INSTANCE_ID_LEN as nat, |i: int| if i == 0 { instance_id } else { 0u8 })
}

impl InstanceStarter {
    /// A starter for the instance of the given name and number.
    pub fn new(instance_name: &str, instance_id: u8) -> (starter: Self)
        ensures
            starter@ == (InstanceStarterView { instance_name: instance_name@, instance_id }),
    {
        Self { instance_name: instance_name.to_owned(), instance_id }
    }

    /// Name of the instance.
    pub fn instance_name(&self) -> (name: &str)
        ensures
            name@ == self@.instance_name,
    {
        self.instance_name.as_str()
    }

    /// Number of the instance.
    pub fn instance_id(&self) -> (id: u8)
        ensures
            id == self@.instance_id,
    {
        self.instance_id
    }

    /// The identifier that the virtual machine of this instance is created
    /// with.
    pub fn vm_instance_id(&self) -> (id: [u8; 64])
        ensures
            id@ == instance_id_bytes(self@.instance_id),
    {
        let mut id = [0u8; 64];
        id[0] = self.instance_id;
        assert(id@ =~= instance_id_bytes(self@.instance_id));
        id
    }
}

} // verus!
