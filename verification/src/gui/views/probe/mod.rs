//! Probe view: the probe and project selection, the datatype of reads and
//! the address inputs, which take only well-formed addresses.

pub mod address;
pub mod common;

use vstd::prelude::*;

use self::address::{valid_address, validaddr};
use crate::gui::Message;

use self::common::Datatype;

verus! {

/// A message of the probe view.
#[derive(Clone, Debug)]
pub enum ProbeMessage {
    /// Loads the current ELF or binary into the target.
    Load,
    /// Stops the execution of the current target core.
    Stop,
    /// Resets the current target core.
    Reset,
    /// Continues the execution of the current target core.
    Run,
    /// Steps the current target core one instruction.
    Step,
    /// Dumps the current target core's registers.
    Dump,
    /// Reads the selected datatype from the read address.
    Read,
    /// Reads the bytes of the address range.
    ReadRange,
    /// Reads the current value of a symbol.
    ReadSymbol,
    /// Selects the datatype of reads.
    Datatype(Datatype),
    /// The read address input changed.
    ReadAddressChanged(String),
    /// The start address input of the range changed.
    ReadRangeSAddressChanged(String),
    /// The end address input of the range changed.
    ReadRangeEAddressChanged(String),
    /// The read address was submitted.
    NewReadAddress,
    /// The start address of the range was submitted.
    NewReadRangeSAddress,
    /// The end address of the range was submitted.
    NewReadRangeEAddress,
}

/// The datatypes that reads offer, in the order of the selection list.
pub open spec fn all_datatypes() -> Seq<Datatype> {
    seq![
        Datatype::Int8,
        Datatype::UInt8,
        Datatype::Int16,
        Datatype::UInt16,
        Datatype::Int32,
        Datatype::UInt32,
        Datatype::Int64,
        Datatype::UInt64,
        Datatype::Float16,
        Datatype::Float32,
        Datatype::BFloat16,
        Datatype::Char,
    ]
}

/// The datatypes that reads offer, in the order of the selection list.
pub fn datatypes() -> (d: Vec<Datatype>)
    ensures
        d@ == all_datatypes(),
{
    vec![
        Datatype::Int8,
        Datatype::UInt8,
        Datatype::Int16,
        Datatype::UInt16,
        Datatype::Int32,
        Datatype::UInt32,
        Datatype::Int64,
        Datatype::UInt64,
        Datatype::Float16,
        Datatype::Float32,
        Datatype::BFloat16,
        Datatype::Char,
    ]
}

/// The state of the view after a message: a datatype is selected, and an
/// address input takes a new text only when it is a well-formed address;
/// other messages change nothing here.
pub open spec fn updated(pre: ProbeView, msg: ProbeMessage) -> ProbeView {
    match msg {
        ProbeMessage::Datatype(d) => ProbeView { seldatatype: Some(d), ..pre },
        ProbeMessage::ReadAddressChanged(s) => if valid_address(s@) {
            ProbeView { readaddrval: s, ..pre }
        } else {
            pre
        },
        ProbeMessage::ReadRangeSAddressChanged(s) => if valid_address(s@) {
            ProbeView { saddrval: s, ..pre }
        } else {
            pre
        },
        ProbeMessage::ReadRangeEAddressChanged(s) => if valid_address(s@) {
            ProbeView { eaddrval: s, ..pre }
        } else {
            pre
        },
        _ => pre,
    }
}

/// Every address input holds a well-formed address.
pub open spec fn inputs_valid(v: ProbeView) -> bool {
    &&& valid_address(v.readaddrval@)
    &&& valid_address(v.saddrval@)
    &&& valid_address(v.eaddrval@)
}

/// The address inputs start empty and take only well-formed addresses, so
/// they always hold well-formed addresses.
pub proof fn law_inputs_stay_valid(pre: ProbeView, msg: ProbeMessage)
    requires
        inputs_valid(pre),
    ensures
        inputs_valid(updated(pre, msg)),
{
}

/// Each address message writes only its own input: the read address, the
/// start or the end of the range takes the text when it is a valid address
/// and keeps its text otherwise, and the two other inputs, the selected
/// datatype and the project and probe selections stay as they were.
pub proof fn law_address_message_sets_its_input(pre: ProbeView, s: String)
    ensures
        ({
            let post = updated(pre, ProbeMessage::ReadAddressChanged(s));
            &&& post.readaddrval@ == if valid_address(s@) { s@ } else { pre.readaddrval@ }
            &&& post.saddrval == pre.saddrval && post.eaddrval == pre.eaddrval
            &&& post.seldatatype == pre.seldatatype && post.selproject == pre.selproject
            &&& post.selprobe == pre.selprobe
        }),
        ({
            let post = updated(pre, ProbeMessage::ReadRangeSAddressChanged(s));
            &&& post.saddrval@ == if valid_address(s@) { s@ } else { pre.saddrval@ }
            &&& post.readaddrval == pre.readaddrval && post.eaddrval == pre.eaddrval
            &&& post.seldatatype == pre.seldatatype && post.selproject == pre.selproject
            &&& post.selprobe == pre.selprobe
        }),
        ({
            let post = updated(pre, ProbeMessage::ReadRangeEAddressChanged(s));
            &&& post.eaddrval@ == if valid_address(s@) { s@ } else { pre.eaddrval@ }
            &&& post.readaddrval == pre.readaddrval && post.saddrval == pre.saddrval
            &&& post.seldatatype == pre.seldatatype && post.selproject == pre.selproject
            &&& post.selprobe == pre.selprobe
        }),
{
}

/// Picking a datatype selects it and changes nothing else; the command and
/// read buttons and the submissions change nothing in the view.
pub proof fn law_probe_commands_keep_inputs(pre: ProbeView, d: Datatype, msg: ProbeMessage)
    requires
        !(msg is Datatype || msg is ReadAddressChanged || msg is ReadRangeSAddressChanged
            || msg is ReadRangeEAddressChanged),
    ensures
        updated(pre, ProbeMessage::Datatype(d)).seldatatype == Some(d),
        updated(pre, ProbeMessage::Datatype(d)).readaddrval == pre.readaddrval,
        updated(pre, ProbeMessage::Datatype(d)).saddrval == pre.saddrval,
        updated(pre, ProbeMessage::Datatype(d)).eaddrval == pre.eaddrval,
        updated(pre, msg) == pre,
{
}

/// The state of the probe view.
pub struct ProbeView {
    /// List of all projects.
    pub projects: Vec<String>,
    /// Selected project.
    pub selproject: Option<String>,
    /// Names of all probes.
    pub probenames: Vec<String>,
    /// Selected probe.
    pub selprobe: Option<String>,
    /// Selected datatype of reads.
    pub seldatatype: Option<Datatype>,
    /// Current read address.
    pub readaddrval: String,
    /// Current start address of the read range.
    pub saddrval: String,
    /// Current end address of the read range.
    pub eaddrval: String,
}

impl ProbeView {
    /// Creates the probe view over the probes found, with nothing selected
    /// and empty address inputs.
    pub fn new(probenames: Vec<String>) -> (v: Self)
        ensures
            v.probenames == probenames,
            v.projects@ == Seq::<String>::empty(),
            v.selproject == None::<String>,
            v.selprobe == None::<String>,
            v.seldatatype == None::<Datatype>,
            v.readaddrval@ == Seq::<char>::empty(),
            v.saddrval@ == Seq::<char>::empty(),
            v.eaddrval@ == Seq::<char>::empty(),
            inputs_valid(v),
    {
        ProbeView {
            projects: Vec::new(),
            selproject: None,
            probenames,
            selprobe: None,
            seldatatype: None,
            readaddrval: String::new(),
            saddrval: String::new(),
            eaddrval: String::new(),
        }
    }

    /// Updates the view: a datatype is selected, and an address input takes
    /// a new text only when it is a well-formed address; other messages
    /// change nothing here.
    pub fn update(&mut self, msg: ProbeMessage)
        ensures
            *final(self) == updated(*old(self), msg),
    {
        match msg {
            ProbeMessage::Datatype(d) => {
                self.seldatatype = Some(d);
            },
            ProbeMessage::ReadAddressChanged(s) => {
                if validaddr(&s) {
                    self.readaddrval = s;
                }
            },
            ProbeMessage::ReadRangeSAddressChanged(s) => {
                if validaddr(&s) {
                    self.saddrval = s;
                }
            },
            ProbeMessage::ReadRangeEAddressChanged(s) => {
                if validaddr(&s) {
                    self.eaddrval = s;
                }
            },
            _ => {},
        }
    }
}

/// An address input of the probe view.
#[derive(Clone, Copy, Debug, PartialEq, Eq, Structural)]
pub enum AddressField {
    /// The address of a read.
    Read,
    /// The start address of a range read.
    RangeStart,
    /// The end address of a range read.
    RangeEnd,
}

/// The choices of the datatype list, each with the message that picking it
/// sends: the datatype, for the probe view.
pub fn datatype_choices() -> (c: Vec<(Datatype, Message)>)
    ensures
        c@.len() == all_datatypes().len(),
        forall|t: int|
            #![trigger c@[t]]
            0 <= t < c@.len() ==> c@[t].0 == all_datatypes()[t] && c@[t].1 == Message::Probe(
                ProbeMessage::Datatype(all_datatypes()[t]),
            ),
{
    let d = datatypes();
    let mut c: Vec<(Datatype, Message)> = Vec::new();
    let mut t: usize = 0;
    while t < d.len()
        invariant
            t <= d@.len(),
            d@ == all_datatypes(),
            c@.len() == t,
            forall|u: int|
                #![trigger c@[u]]
                0 <= u < t ==> c@[u].0 == all_datatypes()[u] && c@[u].1 == Message::Probe(
                    ProbeMessage::Datatype(all_datatypes()[u]),
                ),
        decreases d@.len() - t,
    {
        c.push((d[t], Message::Probe(ProbeMessage::Datatype(d[t]))));
        t = t + 1;
    }
    c
}

/// The messages of the core command buttons, in order: Load, Stop, Reset,
/// Run, Step and Dump registers.
pub fn command_messages() -> (m: Vec<Message>)
    ensures
        m@ == seq![
            Message::Probe(ProbeMessage::Load),
            Message::Probe(ProbeMessage::Stop),
            Message::Probe(ProbeMessage::Reset),
            Message::Probe(ProbeMessage::Run),
            Message::Probe(ProbeMessage::Step),
            Message::Probe(ProbeMessage::Dump),
        ],
{
    vec![
        Message::Probe(ProbeMessage::Load),
        Message::Probe(ProbeMessage::Stop),
        Message::Probe(ProbeMessage::Reset),
        Message::Probe(ProbeMessage::Run),
        Message::Probe(ProbeMessage::Step),
        Message::Probe(ProbeMessage::Dump),
    ]
}

/// The messages of the read buttons, in order: Read, Read range and Read
/// symbol.
pub fn read_messages() -> (m: Vec<Message>)
    ensures
        m@ == seq![
            Message::Probe(ProbeMessage::Read),
            Message::Probe(ProbeMessage::ReadRange),
            Message::Probe(ProbeMessage::ReadSymbol),
        ],
{
    vec![
        Message::Probe(ProbeMessage::Read),
        Message::Probe(ProbeMessage::ReadRange),
        Message::Probe(ProbeMessage::ReadSymbol),
    ]
}

/// The message of an address input whose text changed to `text`.
pub fn address_message(field: AddressField, text: String) -> (m: Message)
    ensures
        m == Message::Probe(
            match field {
                AddressField::Read => ProbeMessage::ReadAddressChanged(text),
                AddressField::RangeStart => ProbeMessage::ReadRangeSAddressChanged(text),
                AddressField::RangeEnd => ProbeMessage::ReadRangeEAddressChanged(text),
            },
        ),
{
    Message::Probe(
        match field {
            AddressField::Read => ProbeMessage::ReadAddressChanged(text),
            AddressField::RangeStart => ProbeMessage::ReadRangeSAddressChanged(text),
            AddressField::RangeEnd => ProbeMessage::ReadRangeEAddressChanged(text),
        },
    )
}

/// The message of an address input when its text is submitted.
pub fn submit_message(field: AddressField) -> (m: Message)
    ensures
        m == Message::Probe(
            match field {
                AddressField::Read => ProbeMessage::NewReadAddress,
                AddressField::RangeStart => ProbeMessage::NewReadRangeSAddress,
                AddressField::RangeEnd => ProbeMessage::NewReadRangeEAddress,
            },
        ),
{
    Message::Probe(
        match field {
            AddressField::Read => ProbeMessage::NewReadAddress,
            AddressField::RangeStart => ProbeMessage::NewReadRangeSAddress,
            AddressField::RangeEnd => ProbeMessage::NewReadRangeEAddress,
        },
    )
}

/// The message of the project and probe selection lists when `name` is
/// picked: both lists send the picked name as a project selection.
pub fn pick_message(name: String) -> (m: Message)
    ensures
        m == Message::ProjectSelected(name),
{
    Message::ProjectSelected(name)
}

} // verus!
