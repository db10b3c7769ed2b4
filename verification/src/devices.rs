//! The devices that the user can send to, and the dialogs about them.
use crate::text;
use vstd::prelude::*;

verus! {

/// What sort of device it is.
#[derive(Debug, Clone, Copy, PartialEq, Eq, Structural)]
pub enum DeviceType {
    Phone,
    Laptop,
    Desktop,
    Tablet,
    Unknown,
}

/// A device that was discovered on the network or saved by the user.
#[derive(Debug, PartialEq)]
pub struct Device {
    pub id: String,
    pub name: String,
    pub ip_address: String,
    pub device_type: DeviceType,
    pub is_online: bool,
}

impl Clone for Device {
    fn clone(&self) -> (r: Self)
        ensures
            r == *self,
    {
        Device {
            id: self.id.clone(),
            name: self.name.clone(),
            ip_address: self.ip_address.clone(),
            device_type: self.device_type,
            is_online: self.is_online,
        }
    }
}

impl DeviceType {
    /// The symbol that stands for the device type.
    pub open spec fn icon_spec(self) -> Seq<char> {
        match self {
            DeviceType::Phone => "📱"@,
            DeviceType::Laptop => "💻"@,
            DeviceType::Desktop => "🖥️"@,
            DeviceType::Tablet => "📲"@,
            DeviceType::Unknown => "❓"@,
        }
    }

    /// The name of the device type.
    pub open spec fn label_spec(self) -> Seq<char> {
        match self {
            DeviceType::Phone => "Phone"@,
            DeviceType::Laptop => "Laptop"@,
            DeviceType::Desktop => "Desktop"@,
            DeviceType::Tablet => "Tablet"@,
            DeviceType::Unknown => "Unknown"@,
        }
    }

    /// The symbol that stands for the device type.
    pub fn icon(&self) -> (s: &'static str)
        ensures
            s@ == self.icon_spec(),
    {
        match self {
            DeviceType::Phone => "📱",
            DeviceType::Laptop => "💻",
            DeviceType::Desktop => "🖥️",
            DeviceType::Tablet => "📲",
            DeviceType::Unknown => "❓",
        }
    }

    /// The name of the device type.
    pub fn label(&self) -> (s: &'static str)
        ensures
            s@ == self.label_spec(),
    {
        match self {
            DeviceType::Phone => "Phone",
            DeviceType::Laptop => "Laptop",
            DeviceType::Desktop => "Desktop",
            DeviceType::Tablet => "Tablet",
            DeviceType::Unknown => "Unknown",
        }
    }
}

impl Device {
    /// Whether the device has these properties.
    pub open spec fn is(
        self,
        id: Seq<char>,
        name: Seq<char>,
        ip_address: Seq<char>,
        device_type: DeviceType,
        is_online: bool,
    ) -> bool {
        &&& self.id@ == id
        &&& self.name@ == name
        &&& self.ip_address@ == ip_address
        &&& self.device_type == device_type
        &&& self.is_online == is_online
    }

    fn sample(
        id: &str,
        name: &str,
        ip_address: &str,
        device_type: DeviceType,
        is_online: bool,
    ) -> (d: Device)
        ensures
            d.is(id@, name@, ip_address@, device_type, is_online),
    {
        Device {
            id: String::from_str(id),
            name: String::from_str(name),
            ip_address: String::from_str(ip_address),
            device_type,
            is_online,
        }
    }

    /// What a device's card says of it: whether it is online.
    pub fn status_text(&self) -> (s: &'static str)
        ensures
            s@ == (if self.is_online {
                "Online"@
            } else {
                "Offline"@
            }),
    {
        if self.is_online {
            "Online"
        } else {
            "Offline"
        }
    }

    /// How a device's card shows whether it is online.
    pub fn status_class(&self) -> (s: &'static str)
        ensures
            s@ == (if self.is_online {
                "badge-success"@
            } else {
                "badge-ghost"@
            }),
    {
        if self.is_online {
            "badge-success"
        } else {
            "badge-ghost"
        }
    }
}

/// Sample devices, shown until the network can be scanned.
pub fn fetch_discovered_devices() -> (devices: Vec<Device>)
    ensures
        devices@.len() == 3,
        devices@[0].is("disc-1"@, "Jay's iPhone"@, "192.168.1.42"@, DeviceType::Phone, true),
        devices@[1].is("disc-2"@, "Living Room Mac"@, "192.168.1.55"@, DeviceType::Desktop, true),
        devices@[2].is("disc-3"@, "Work Laptop"@, "192.168.1.60"@, DeviceType::Laptop, false),
{
    vec![
        Device::sample("disc-1", "Jay's iPhone", "192.168.1.42", DeviceType::Phone, true),
        Device::sample("disc-2", "Living Room Mac", "192.168.1.55", DeviceType::Desktop, true),
        Device::sample("disc-3", "Work Laptop", "192.168.1.60", DeviceType::Laptop, false),
    ]
}

/// Sample devices, shown until the user has saved any.
pub fn fetch_saved_devices() -> (devices: Vec<Device>)
    ensures
        devices@.len() == 2,
        devices@[0].is("saved-1"@, "My MacBook Pro"@, "192.168.1.10"@, DeviceType::Laptop, true),
        devices@[1].is("saved-2"@, "iPad Air"@, "192.168.1.22"@, DeviceType::Tablet, false),
{
    vec![
        Device::sample("saved-1", "My MacBook Pro", "192.168.1.10", DeviceType::Laptop, true),
        Device::sample("saved-2", "iPad Air", "192.168.1.22", DeviceType::Tablet, false),
    ]
}

/// The user saves a device: it is put at the end of the list.
pub fn save_device(devices: &mut Vec<Device>, device: &Device)
    ensures
        final(devices)@ == old(devices)@.push(*device),
{
    devices.push(device.clone());
}

/// The devices with another identifier than `id`, in their order.
pub open spec fn without_id(devices: Seq<Device>, id: Seq<char>) -> Seq<Device> {
    devices.filter(|d: Device| d.id@ != id)
}

/// The user removes a saved device: every device with that identifier leaves the list, and
/// the others stay in their order.
pub fn remove_saved_device(devices: &mut Vec<Device>, device_id: &str)
    ensures
        final(devices)@ == without_id(old(devices)@, device_id@),
{
    let ghost all = devices@;
    let id = String::from_str(device_id);
    let mut kept: Vec<Device> = Vec::new();
    let mut i: usize = 0;
    assert(without_id(all.take(0), id@) =~= Seq::empty()) by {
        assert(all.take(0) =~= Seq::empty());
        reveal(Seq::filter);
    }
    while i < devices.len()
        invariant
            i <= devices.len(),
            devices@ == all,
            id@ == device_id@,
            kept@ == without_id(all.take(i as int), id@),
        decreases devices.len() - i,
    {
        proof {
            reveal(Seq::filter);
            assert(all.take(i + 1).drop_last() =~= all.take(i as int));
        }
        if devices[i].id != id {
            kept.push(devices[i].clone());
        }
        i = i + 1;
    }
    assert(all.take(all.len() as int) =~= all);
    *devices = kept;
}

/// A device that was saved and then removed leaves nothing behind, where its identifier
/// was its own.
pub proof fn law_removing_undoes_saving(devices: Seq<Device>, device: Device)
    requires
        forall|i: int| 0 <= i < devices.len() ==> (#[trigger] devices[i]).id@ != device.id@,
    ensures
        without_id(devices.push(device), device.id@) == devices,
{
    reveal(Seq::filter);
    assert(devices.push(device).drop_last() =~= devices);
    lemma_nothing_filtered(devices, device.id@);
}

proof fn lemma_nothing_filtered(devices: Seq<Device>, id: Seq<char>)
    requires
        forall|i: int| 0 <= i < devices.len() ==> (#[trigger] devices[i]).id@ != id,
    ensures
        without_id(devices, id) == devices,
    decreases devices.len(),
{
    reveal(Seq::filter);
    if devices.len() > 0 {
        lemma_nothing_filtered(devices.drop_last(), id);
        assert(devices.drop_last().push(devices.last()) =~= devices);
    }
}

// ── Adding a device by hand ─────────────────────────────────────────

/// The port that the form starts with.
pub const FORM_PORT: &'static str = "4242";

/// A device that the user described.
#[derive(Debug, Clone)]
pub struct NewDevice {
    pub id: String,
    pub name: String,
    pub address: String,
    pub port: u16,
}

/// A device that the user described, as the list of saved devices holds it. Its type is not
/// known, and it counts as offline until it is met.
pub fn listed(d: NewDevice) -> (r: Device)
    ensures
        r.is(
            d.id@,
            d.name@,
            d.address@ + ":"@ + text::decimal(d.port as nat),
            DeviceType::Unknown,
            false,
        ),
{
    let mut ip_address = d.address.concat(":");
    text::push_decimal(&mut ip_address, d.port as u64);
    Device {
        id: d.id,
        name: d.name,
        ip_address,
        device_type: DeviceType::Unknown,
        is_online: false,
    }
}

/// What the user has typed about a device.
#[derive(Debug, Clone)]
pub struct DeviceForm {
    pub name: String,
    pub address: String,
    pub port: String,
}

/// What is wrong with a form.
#[derive(Debug, Clone, Copy, PartialEq, Eq, Structural)]
pub enum FormError {
    /// The port is no port number.
    InvalidPort,
    /// The name or the address is blank.
    MissingField,
}

impl FormError {
    /// What the user is told.
    pub fn message(&self) -> (s: &'static str)
        ensures
            s@ == (match self {
                FormError::InvalidPort => "Port must be a number between 0 and 65535"@,
                FormError::MissingField => "Name and address are required"@,
            }),
    {
        match self {
            FormError::InvalidPort => "Port must be a number between 0 and 65535",
            FormError::MissingField => "Name and address are required",
        }
    }
}

/// What a form with these texts amounts to: the name, the address and the port, without the
/// white space around them. The port is judged first.
pub open spec fn form_result(name: Seq<char>, address: Seq<char>, port: Seq<char>) -> Result<
    (Seq<char>, Seq<char>, u16),
    FormError,
> {
    match text::u16_of(text::trimmed(port)) {
        None => Err(FormError::InvalidPort),
        Some(number) => if text::trimmed(name).len() == 0 || text::trimmed(address).len() == 0 {
            Err(FormError::MissingField)
        } else {
            Ok((text::trimmed(name), text::trimmed(address), number))
        },
    }
}

/// Whether a text is a random identifier (version 4), as it is usually written.
pub open spec fn is_random_id(s: Seq<char>) -> bool {
    &&& s.len() == 36
    &&& s[8] == '-' && s[13] == '-' && s[18] == '-' && s[23] == '-'
    &&& s[14] == '4'
    &&& s[19] == '8' || s[19] == '9' || s[19] == 'a' || s[19] == 'b'
    &&& forall|i: int|
        0 <= i < 36 && i != 8 && i != 13 && i != 18 && i != 23 ==> {
            let c = #[trigger] s[i];
            ('0' <= c && c <= '9') || ('a' <= c && c <= 'f')
        }
}

/// `Uuid::new_v4` of the `uuid` crate, written out: 32 lower-case hexadecimal digits in
/// groups of 8, 4, 4, 4 and 12, with hyphens between them, a `4` at the head of the third
/// and one of `8`, `9`, `a` and `b` at the head of the fourth. The rest is random, and
/// nothing is said of it.
#[verifier::external_body]
fn random_id() -> (id: String)
    ensures
        is_random_id(id@),
{
    uuid::Uuid::new_v4().to_string()
}

impl DeviceForm {
    /// An empty form.
    pub fn new() -> (form: DeviceForm)
        ensures
            form.name@ == Seq::<char>::empty(),
            form.address@ == Seq::<char>::empty(),
            form.port@ == FORM_PORT@,
    {
        DeviceForm {
            name: String::new(),
            address: String::new(),
            port: String::from_str(FORM_PORT),
        }
    }

    /// What the form amounts to.
    pub open spec fn result(self) -> Result<(Seq<char>, Seq<char>, u16), FormError> {
        form_result(self.name@, self.address@, self.port@)
    }

    /// Whether the form can be submitted: exactly where submitting it would succeed.
    pub fn can_submit(&self) -> (r: bool)
        ensures
            r == (self.result() is Ok),
    {
        let port = text::parse_u16(text::trim(self.port.as_str()).as_str());
        port.is_some() && text::trim(self.name.as_str()).as_str().unicode_len() > 0 && text::trim(
            self.address.as_str(),
        ).as_str().unicode_len() > 0
    }

    /// The device that the form describes, under the given identifier.
    pub fn describe(&self, id: String) -> (r: Result<NewDevice, FormError>)
        ensures
            match self.result() {
                Ok((name, address, port)) => r matches Ok(d) && d.id == id && d.name@ == name
                    && d.address@ == address && d.port == port,
                Err(e) => r == Err::<NewDevice, FormError>(e),
            },
    {
        let name = text::trim(self.name.as_str());
        let address = text::trim(self.address.as_str());
        let port = match text::parse_u16(text::trim(self.port.as_str()).as_str()) {
            Some(port) => port,
            None => {
                return Err(FormError::InvalidPort);
            },
        };
        if name.as_str().unicode_len() == 0 || address.as_str().unicode_len() == 0 {
            return Err(FormError::MissingField);
        }
        Ok(NewDevice { id, name, address, port })
    }

    /// The device that the form describes, under a new identifier.
    pub fn submit(&self) -> (r: Result<NewDevice, FormError>)
        ensures
            match self.result() {
                Ok((name, address, port)) => r matches Ok(d) && is_random_id(d.id@) && d.name@
                    == name && d.address@ == address && d.port == port,
                Err(e) => r == Err::<NewDevice, FormError>(e),
            },
    {
        self.describe(random_id())
    }
}

// ── Sending from the device's dialog ────────────────────────────────

/// How far the dialog has come.
#[derive(Debug, Clone, PartialEq)]
pub enum TransferStatus {
    Idle,
    /// `percent` of `filename` have been sent.
    Sending { percent: u8, filename: String },
    Done { filename: String },
    Error { message: String },
}

/// The dialog for sending to one device.
#[derive(Debug, Clone)]
pub struct SendDialog {
    pub message: String,
    pub status: TransferStatus,
}

impl SendDialog {
    /// Whether the dialog is as it opens.
    pub open spec fn is_fresh(self) -> bool {
        self.message@ == Seq::<char>::empty() && self.status is Idle
    }

    /// An open dialog.
    pub fn new() -> (d: SendDialog)
        ensures
            d.is_fresh(),
    {
        SendDialog { message: String::new(), status: TransferStatus::Idle }
    }

    /// The user closes the dialog: what was typed and shown is gone.
    pub fn close(&mut self)
        ensures
            final(self).is_fresh(),
    {
        self.message = String::new();
        self.status = TransferStatus::Idle;
    }

    /// The user wants to pick a file, which cannot be done yet.
    pub fn pick_file(&mut self)
        ensures
            final(self).message == old(self).message,
            final(self).status matches TransferStatus::Error { message } && message@
                == "File picker not connected yet"@,
    {
        self.status = TransferStatus::Error {
            message: String::from_str("File picker not connected yet"),
        };
    }

    /// The user wants to send the clipboard, which cannot be done yet.
    pub fn send_clipboard(&mut self)
        ensures
            final(self).message == old(self).message,
            final(self).status matches TransferStatus::Error { message } && message@
                == "Clipboard send not connected yet"@,
    {
        self.status = TransferStatus::Error {
            message: String::from_str("Clipboard send not connected yet"),
        };
    }

    /// Whether there is a message to send: one that is not blank.
    pub fn can_send(&self) -> (r: bool)
        ensures
            r == (text::trimmed(self.message@).len() > 0),
    {
        text::trim(self.message.as_str()).as_str().unicode_len() > 0
    }

    /// The user sends the message. It is handed out as it was typed, and the dialog is ready
    /// for the next one. A blank message changes nothing.
    pub fn send_message(&mut self) -> (sent: Option<String>)
        ensures
            if text::trimmed(old(self).message@).len() > 0 {
                &&& sent == Some(old(self).message)
                &&& final(self).message@ == Seq::<char>::empty()
                &&& final(self).status matches TransferStatus::Done { filename } && filename@
                    == "message"@
            } else {
                &&& sent is None
                &&& *final(self) == *old(self)
            },
    {
        if !self.can_send() {
            return None;
        }
        let mut sent = String::new();
        core::mem::swap(&mut sent, &mut self.message);
        self.status = TransferStatus::Done { filename: String::from_str("message") };
        Some(sent)
    }
}

/// A form is good if its port is a number and neither its name nor its address is blank; then
/// it amounts to the three without the white space around them. Otherwise it says what is
/// wrong, the port first.
pub proof fn law_forms_are_judged(name: Seq<char>, address: Seq<char>, port: Seq<char>)
    ensures
        text::u16_of(text::trimmed(port)) is None ==> form_result(name, address, port) == Err::<
            (Seq<char>, Seq<char>, u16),
            FormError,
        >(FormError::InvalidPort),
        text::u16_of(text::trimmed(port)) matches Some(number) ==> {
            if text::trimmed(name).len() > 0 && text::trimmed(address).len() > 0 {
                form_result(name, address, port) == Ok::<(Seq<char>, Seq<char>, u16), FormError>(
                    (text::trimmed(name), text::trimmed(address), number),
                )
            } else {
                form_result(name, address, port) == Err::<(Seq<char>, Seq<char>, u16), FormError>(
                    FormError::MissingField,
                )
            }
        },
        form_result(text::trimmed(name), text::trimmed(address), text::trimmed(port))
            == form_result(name, address, port),
{
    text::law_trimming_is_thorough(name);
    text::law_trimming_is_thorough(address);
    text::law_trimming_is_thorough(port);
}

/// Removing takes out every device with the identifier and no other: what is left are the
/// devices with another one, as many as there were.
pub proof fn law_removing_takes_out_the_identifier(devices: Seq<Device>, id: Seq<char>, d: Device)
    ensures
        without_id(devices, id).contains(d) <==> devices.contains(d) && d.id@ != id,
        without_id(devices, id).to_multiset().count(d) == if d.id@ != id {
            devices.to_multiset().count(d)
        } else {
            0
        },
        without_id(without_id(devices, id), id) == without_id(devices, id),
    decreases devices.len(),
{
    broadcast use vstd::seq_lib::group_to_multiset_ensures;

    reveal(Seq::filter);
    if devices.len() > 0 {
        let front = devices.drop_last();
        law_removing_takes_out_the_identifier(front, id, d);
        assert(front.push(devices.last()) =~= devices);
        let kept = without_id(front, id);
        if devices.last().id@ != id {
            assert(without_id(devices, id) =~= kept.push(devices.last()));
            assert(kept.push(devices.last()).drop_last() =~= kept);
        }
        assert(devices.to_multiset() =~= front.to_multiset().insert(devices.last()));
    }
}

/// What each type of device is called, and which symbol stands for it.
pub proof fn law_device_types_are_told_apart(a: DeviceType)
    ensures
        a is Phone ==> a.label_spec() == "Phone"@,
        a is Laptop ==> a.label_spec() == "Laptop"@,
        a is Desktop ==> a.label_spec() == "Desktop"@,
        a is Tablet ==> a.label_spec() == "Tablet"@,
        a is Unknown ==> a.label_spec() == "Unknown"@,
        a is Phone ==> a.icon_spec() == "📱"@,
        a is Laptop ==> a.icon_spec() == "💻"@,
        a is Desktop ==> a.icon_spec() == "🖥️"@,
        a is Tablet ==> a.icon_spec() == "📲"@,
        a is Unknown ==> a.icon_spec() == "❓"@,
{
}

/// Removing keeps the order, and looks at each device by itself: it makes no difference whether
/// it is done on the whole list or on its two parts, and of one device it keeps all or nothing.
pub proof fn law_removing_keeps_the_order(
    first: Seq<Device>,
    second: Seq<Device>,
    id: Seq<char>,
    d: Device,
)
    ensures
        without_id(first + second, id) == without_id(first, id) + without_id(second, id),
        d.id@ == id ==> without_id(seq![d], id) == Seq::<Device>::empty(),
        d.id@ != id ==> without_id(seq![d], id) == seq![d],
    decreases second.len(),
{
    reveal(Seq::filter);
    assert(seq![d].drop_last() =~= Seq::empty());
    assert(without_id(Seq::empty(), id) =~= Seq::empty());
    assert(seq![d].last() == d);
    if d.id@ != id {
        assert(without_id(seq![d], id) =~= seq![d]);
    }
    if second.len() == 0 {
        assert(first + second =~= first);
        assert(without_id(first, id) + without_id(second, id) =~= without_id(first, id));
    } else {
        assert((first + second).drop_last() =~= first + second.drop_last());
        law_removing_keeps_the_order(first, second.drop_last(), id, d);
        assert(without_id(first + second, id) =~= without_id(first, id) + without_id(second, id));
    }
}

} // verus!
