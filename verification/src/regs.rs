use vstd::prelude::*;

verus! {


/// Identity of a device register: each name stands for a fixed byte address
/// in the chip's register space.
#[derive(Clone, Copy, Debug, PartialEq, Eq, Structural)]
pub enum Rfm22RegVal {
    InterruptStatus1,
    InterruptStatus2,
    InterruptEnable1,
    InterruptEnable2,
    OperatingFunctionControl1,
    OperatingFunctionControl2,
    DataAccessControl,
    HeaderControl2,
    TxPower,
    TxDataRate1,
    TxDataRate0,
    ModulationModeControl1,
    ModulationModeControl2,
    FrequencyOffset1,
    FrequencyOffset2,
    FrequencyBandSelect,
    CarrierFrequency1,
    CarrierFrequency0,
    FIFOAccess,
}

impl Rfm22RegVal {
    /// The fixed byte address of this register on the device.
    pub open spec fn spec_addr(self) -> u8 {
        match self {
            Rfm22RegVal::InterruptStatus1 => 0x03,
            Rfm22RegVal::InterruptStatus2 => 0x04,
            Rfm22RegVal::InterruptEnable1 => 0x05,
            Rfm22RegVal::InterruptEnable2 => 0x06,
            Rfm22RegVal::OperatingFunctionControl1 => 0x07,
            Rfm22RegVal::OperatingFunctionControl2 => 0x08,
            Rfm22RegVal::DataAccessControl => 0x30,
            Rfm22RegVal::HeaderControl2 => 0x33,
            Rfm22RegVal::TxPower => 0x6d,
            Rfm22RegVal::TxDataRate1 => 0x6e,
            Rfm22RegVal::TxDataRate0 => 0x6f,
            Rfm22RegVal::ModulationModeControl1 => 0x70,
            Rfm22RegVal::ModulationModeControl2 => 0x71,
            Rfm22RegVal::FrequencyOffset1 => 0x73,
            Rfm22RegVal::FrequencyOffset2 => 0x74,
            Rfm22RegVal::FrequencyBandSelect => 0x75,
            Rfm22RegVal::CarrierFrequency1 => 0x76,
            Rfm22RegVal::CarrierFrequency0 => 0x77,
            Rfm22RegVal::FIFOAccess => 0x7f,
        }
    }

    pub fn addr(self) -> (r: u8)
        ensures
            r == self.spec_addr(),
    {
        match self {
            Rfm22RegVal::InterruptStatus1 => 0x03,
            Rfm22RegVal::InterruptStatus2 => 0x04,
            Rfm22RegVal::InterruptEnable1 => 0x05,
            Rfm22RegVal::InterruptEnable2 => 0x06,
            Rfm22RegVal::OperatingFunctionControl1 => 0x07,
            Rfm22RegVal::OperatingFunctionControl2 => 0x08,
            Rfm22RegVal::DataAccessControl => 0x30,
            Rfm22RegVal::HeaderControl2 => 0x33,
            Rfm22RegVal::TxPower => 0x6d,
            Rfm22RegVal::TxDataRate1 => 0x6e,
            Rfm22RegVal::TxDataRate0 => 0x6f,
            Rfm22RegVal::ModulationModeControl1 => 0x70,
            Rfm22RegVal::ModulationModeControl2 => 0x71,
            Rfm22RegVal::FrequencyOffset1 => 0x73,
            Rfm22RegVal::FrequencyOffset2 => 0x74,
            Rfm22RegVal::FrequencyBandSelect => 0x75,
            Rfm22RegVal::CarrierFrequency1 => 0x76,
            Rfm22RegVal::CarrierFrequency0 => 0x77,
            Rfm22RegVal::FIFOAccess => 0x7f,
        }
    }
}


// Bit positions of the interrupt status 1 register.
pub const ICRCERROR: u8 = 0x01;
pub const IPKVALID: u8 = 0x02;
pub const IPKSENT: u8 = 0x04;
pub const IEXT: u8 = 0x08;
pub const IRXFFAFULL: u8 = 0x10;
pub const ITXFFAEM: u8 = 0x20;
pub const ITXFFAFULL: u8 = 0x40;
pub const IFFERR: u8 = 0x80;

// Bit positions of the interrupt status 2 register.
pub const IPOR: u8 = 0x01;
pub const ICHIPRDY: u8 = 0x02;
pub const ILBDET: u8 = 0x04;
pub const IWUT: u8 = 0x08;
pub const IRSSI: u8 = 0x10;
pub const IPREAINVAL: u8 = 0x20;
pub const IPREAVAL: u8 = 0x40;
pub const ISWDET: u8 = 0x80;

// Bit positions of the interrupt enable 1 register.
pub const ENCRCERROR: u8 = 0x01;
pub const ENPKVALID: u8 = 0x02;
pub const ENPKSENT: u8 = 0x04;
pub const ENEXT: u8 = 0x08;
pub const ENRXFFAFULL: u8 = 0x10;
pub const ENTXFFAEM: u8 = 0x20;
pub const ENTXFFAFULL: u8 = 0x40;
pub const ENFFERR: u8 = 0x80;

// Bit positions of the interrupt enable 2 register.
pub const ENPOR: u8 = 0x01;
pub const ENCHIPRDY: u8 = 0x02;
pub const ENLBDET: u8 = 0x04;
pub const ENWUT: u8 = 0x08;
pub const ENRSSI: u8 = 0x10;
pub const ENPREAINVAL: u8 = 0x20;
pub const ENPREAVAL: u8 = 0x40;
pub const ENSWDET: u8 = 0x80;

// Bit positions of the operating function control 1 register.
pub const XTON: u8 = 0x01;
pub const PLLON: u8 = 0x02;
pub const RXON: u8 = 0x04;
pub const TXON: u8 = 0x08;
pub const X32KSEL: u8 = 0x10;
pub const ENWT: u8 = 0x20;
pub const ENLBD: u8 = 0x40;
pub const SWRES: u8 = 0x80;

// Bit positions of the operating function control 2 register.
pub const FFCLRTX: u8 = 0x01;
pub const FFCLRRX: u8 = 0x02;
pub const ENLDM: u8 = 0x04;
pub const AUTOTX: u8 = 0x08;
pub const RXMPK: u8 = 0x10;
pub const ANTDIV0: u8 = 0x20;
pub const ANTDIV1: u8 = 0x40;
pub const ANTDIV2: u8 = 0x80;

// Bit positions of the data access control register.
pub const CRC0: u8 = 0x01;
pub const CRC1: u8 = 0x02;
pub const ENCRC: u8 = 0x04;
pub const ENPACTX: u8 = 0x08;
pub const SKIP2PH: u8 = 0x10;
pub const CRCDONLY: u8 = 0x20;
pub const LSBFIRST: u8 = 0x40;
pub const ENPACRX: u8 = 0x80;

// Bit positions of the header control 2 register.
pub const PREALEN8: u8 = 0x01;
pub const SYNCLEN0: u8 = 0x02;
pub const SYNCLEN1: u8 = 0x04;
pub const FIXPKLEN: u8 = 0x08;
pub const HDLEN0: u8 = 0x10;
pub const HDLEN1: u8 = 0x20;
pub const HDLEN2: u8 = 0x40;
pub const SKIPSYN: u8 = 0x80;

// Bit positions of the TX power register.
pub const TXPOW0: u8 = 0x01;
pub const TXPOW1: u8 = 0x02;
pub const TXPOW2: u8 = 0x04;
pub const LNA_SW: u8 = 0x08;
pub const PAPEAKLV0: u8 = 0x10;
pub const PAPEAKLV1: u8 = 0x20;
pub const PAPEAKEN: u8 = 0x40;
pub const PAPEAKVAL: u8 = 0x80;

// Bit positions of the modulation mode control 1 register.
pub const ENWHITE: u8 = 0x01;
pub const ENMANCH: u8 = 0x02;
pub const ENMANINV: u8 = 0x04;
pub const MANPPOL: u8 = 0x08;
pub const ENPHPWDN: u8 = 0x10;
pub const TXDRTSCALE: u8 = 0x20;

// Bit positions of the modulation mode control 2 register.
pub const MODTYP0: u8 = 0x01;
pub const MODTYP1: u8 = 0x02;
pub const FD8: u8 = 0x04;
pub const ENINV: u8 = 0x08;
pub const DTMOD0: u8 = 0x10;
pub const DTMOD1: u8 = 0x20;
pub const TRCLK0: u8 = 0x40;
pub const TRCLK1: u8 = 0x80;

// Bit positions of the frequency band select register.
pub const FB0: u8 = 0x01;
pub const FB1: u8 = 0x02;
pub const FB2: u8 = 0x04;
pub const FB3: u8 = 0x08;
pub const FB4: u8 = 0x10;
pub const HBSEL: u8 = 0x20;
pub const SBSEL: u8 = 0x40;

/// A typed register value: a byte-wide bit-field set bound to one fixed
/// register identity. `spec_mask` is the set of bits the register defines;
/// `from_bits` rejects any byte with a bit outside that set.
pub trait Rfm22Reg: Sized + Copy {
    spec fn spec_reg() -> Rfm22RegVal;

    spec fn spec_mask() -> u8;

    spec fn spec_bits(&self) -> u8;

    fn reg() -> (r: Rfm22RegVal)
        ensures
            r == Self::spec_reg(),
    ;

    fn from_bits(bits: u8) -> (r: Option<Self>)
        ensures
            bits & !Self::spec_mask() == 0 ==> (r matches Some(v) && v.spec_bits() == bits),
            bits & !Self::spec_mask() != 0 ==> r is None,
    ;

    fn bits(&self) -> (r: u8)
        ensures
            r == self.spec_bits(),
    ;
}

/// Access to the backend byte address of a register type.
pub trait RfmReg {
    spec fn spec_regval() -> u8;

    /// Get the register number for this register type.
    fn regval() -> (r: u8)
        ensures
            r == Self::spec_regval(),
    ;
}

impl<R: Rfm22Reg> RfmReg for R {
    open spec fn spec_regval() -> u8 {
        R::spec_reg().spec_addr()
    }

    fn regval() -> (r: u8) {
        R::reg().addr()
    }
}


#[derive(Clone, Copy, Debug, PartialEq, Eq, Structural)]
pub struct InterruptStatus1 {
    pub bits: u8,
}

impl Rfm22Reg for InterruptStatus1 {
    open spec fn spec_reg() -> Rfm22RegVal {
        Rfm22RegVal::InterruptStatus1
    }

    open spec fn spec_mask() -> u8 {
        0xff
    }

    open spec fn spec_bits(&self) -> u8 {
        self.bits
    }

    fn reg() -> (r: Rfm22RegVal) {
        Rfm22RegVal::InterruptStatus1
    }

    fn from_bits(bits: u8) -> (r: Option<Self>) {
        if bits & !(0xff as u8) == 0 {
            Some(InterruptStatus1 { bits })
        } else {
            None
        }
    }

    fn bits(&self) -> (r: u8) {
        self.bits
    }
}

#[derive(Clone, Copy, Debug, PartialEq, Eq, Structural)]
pub struct InterruptStatus2 {
    pub bits: u8,
}

impl Rfm22Reg for InterruptStatus2 {
    open spec fn spec_reg() -> Rfm22RegVal {
        Rfm22RegVal::InterruptStatus2
    }

    open spec fn spec_mask() -> u8 {
        0xff
    }

    open spec fn spec_bits(&self) -> u8 {
        self.bits
    }

    fn reg() -> (r: Rfm22RegVal) {
        Rfm22RegVal::InterruptStatus2
    }

    fn from_bits(bits: u8) -> (r: Option<Self>) {
        if bits & !(0xff as u8) == 0 {
            Some(InterruptStatus2 { bits })
        } else {
            None
        }
    }

    fn bits(&self) -> (r: u8) {
        self.bits
    }
}

#[derive(Clone, Copy, Debug, PartialEq, Eq, Structural)]
pub struct InterruptEnable1 {
    pub bits: u8,
}

impl Rfm22Reg for InterruptEnable1 {
    open spec fn spec_reg() -> Rfm22RegVal {
        Rfm22RegVal::InterruptEnable1
    }

    open spec fn spec_mask() -> u8 {
        0xff
    }

    open spec fn spec_bits(&self) -> u8 {
        self.bits
    }

    fn reg() -> (r: Rfm22RegVal) {
        Rfm22RegVal::InterruptEnable1
    }

    fn from_bits(bits: u8) -> (r: Option<Self>) {
        if bits & !(0xff as u8) == 0 {
            Some(InterruptEnable1 { bits })
        } else {
            None
        }
    }

    fn bits(&self) -> (r: u8) {
        self.bits
    }
}

#[derive(Clone, Copy, Debug, PartialEq, Eq, Structural)]
pub struct InterruptEnable2 {
    pub bits: u8,
}

impl Rfm22Reg for InterruptEnable2 {
    open spec fn spec_reg() -> Rfm22RegVal {
        Rfm22RegVal::InterruptEnable2
    }

    open spec fn spec_mask() -> u8 {
        0xff
    }

    open spec fn spec_bits(&self) -> u8 {
        self.bits
    }

    fn reg() -> (r: Rfm22RegVal) {
        Rfm22RegVal::InterruptEnable2
    }

    fn from_bits(bits: u8) -> (r: Option<Self>) {
        if bits & !(0xff as u8) == 0 {
            Some(InterruptEnable2 { bits })
        } else {
            None
        }
    }

    fn bits(&self) -> (r: u8) {
        self.bits
    }
}

#[derive(Clone, Copy, Debug, PartialEq, Eq, Structural)]
pub struct OperatingFunctionControl1 {
    pub bits: u8,
}

impl Rfm22Reg for OperatingFunctionControl1 {
    open spec fn spec_reg() -> Rfm22RegVal {
        Rfm22RegVal::OperatingFunctionControl1
    }

    open spec fn spec_mask() -> u8 {
        0xff
    }

    open spec fn spec_bits(&self) -> u8 {
        self.bits
    }

    fn reg() -> (r: Rfm22RegVal) {
        Rfm22RegVal::OperatingFunctionControl1
    }

    fn from_bits(bits: u8) -> (r: Option<Self>) {
        if bits & !(0xff as u8) == 0 {
            Some(OperatingFunctionControl1 { bits })
        } else {
            None
        }
    }

    fn bits(&self) -> (r: u8) {
        self.bits
    }
}

#[derive(Clone, Copy, Debug, PartialEq, Eq, Structural)]
pub struct OperatingFunctionControl2 {
    pub bits: u8,
}

impl Rfm22Reg for OperatingFunctionControl2 {
    open spec fn spec_reg() -> Rfm22RegVal {
        Rfm22RegVal::OperatingFunctionControl2
    }

    open spec fn spec_mask() -> u8 {
        0xff
    }

    open spec fn spec_bits(&self) -> u8 {
        self.bits
    }

    fn reg() -> (r: Rfm22RegVal) {
        Rfm22RegVal::OperatingFunctionControl2
    }

    fn from_bits(bits: u8) -> (r: Option<Self>) {
        if bits & !(0xff as u8) == 0 {
            Some(OperatingFunctionControl2 { bits })
        } else {
            None
        }
    }

    fn bits(&self) -> (r: u8) {
        self.bits
    }
}

#[derive(Clone, Copy, Debug, PartialEq, Eq, Structural)]
pub struct DataAccessControl {
    pub bits: u8,
}

impl Rfm22Reg for DataAccessControl {
    open spec fn spec_reg() -> Rfm22RegVal {
        Rfm22RegVal::DataAccessControl
    }

    open spec fn spec_mask() -> u8 {
        0xff
    }

    open spec fn spec_bits(&self) -> u8 {
        self.bits
    }

    fn reg() -> (r: Rfm22RegVal) {
        Rfm22RegVal::DataAccessControl
    }

    fn from_bits(bits: u8) -> (r: Option<Self>) {
        if bits & !(0xff as u8) == 0 {
            Some(DataAccessControl { bits })
        } else {
            None
        }
    }

    fn bits(&self) -> (r: u8) {
        self.bits
    }
}

#[derive(Clone, Copy, Debug, PartialEq, Eq, Structural)]
pub struct HeaderControl2 {
    pub bits: u8,
}

impl Rfm22Reg for HeaderControl2 {
    open spec fn spec_reg() -> Rfm22RegVal {
        Rfm22RegVal::HeaderControl2
    }

    open spec fn spec_mask() -> u8 {
        0xff
    }

    open spec fn spec_bits(&self) -> u8 {
        self.bits
    }

    fn reg() -> (r: Rfm22RegVal) {
        Rfm22RegVal::HeaderControl2
    }

    fn from_bits(bits: u8) -> (r: Option<Self>) {
        if bits & !(0xff as u8) == 0 {
            Some(HeaderControl2 { bits })
        } else {
            None
        }
    }

    fn bits(&self) -> (r: u8) {
        self.bits
    }
}

#[derive(Clone, Copy, Debug, PartialEq, Eq, Structural)]
pub struct TxPower {
    pub bits: u8,
}

impl Rfm22Reg for TxPower {
    open spec fn spec_reg() -> Rfm22RegVal {
        Rfm22RegVal::TxPower
    }

    open spec fn spec_mask() -> u8 {
        0xff
    }

    open spec fn spec_bits(&self) -> u8 {
        self.bits
    }

    fn reg() -> (r: Rfm22RegVal) {
        Rfm22RegVal::TxPower
    }

    fn from_bits(bits: u8) -> (r: Option<Self>) {
        if bits & !(0xff as u8) == 0 {
            Some(TxPower { bits })
        } else {
            None
        }
    }

    fn bits(&self) -> (r: u8) {
        self.bits
    }
}

#[derive(Clone, Copy, Debug, PartialEq, Eq, Structural)]
pub struct TxDataRate1 {
    pub bits: u8,
}

impl Rfm22Reg for TxDataRate1 {
    open spec fn spec_reg() -> Rfm22RegVal {
        Rfm22RegVal::TxDataRate1
    }

    open spec fn spec_mask() -> u8 {
        0xff
    }

    open spec fn spec_bits(&self) -> u8 {
        self.bits
    }

    fn reg() -> (r: Rfm22RegVal) {
        Rfm22RegVal::TxDataRate1
    }

    fn from_bits(bits: u8) -> (r: Option<Self>) {
        if bits & !(0xff as u8) == 0 {
            Some(TxDataRate1 { bits })
        } else {
            None
        }
    }

    fn bits(&self) -> (r: u8) {
        self.bits
    }
}

#[derive(Clone, Copy, Debug, PartialEq, Eq, Structural)]
pub struct TxDataRate0 {
    pub bits: u8,
}

impl Rfm22Reg for TxDataRate0 {
    open spec fn spec_reg() -> Rfm22RegVal {
        Rfm22RegVal::TxDataRate0
    }

    open spec fn spec_mask() -> u8 {
        0xff
    }

    open spec fn spec_bits(&self) -> u8 {
        self.bits
    }

    fn reg() -> (r: Rfm22RegVal) {
        Rfm22RegVal::TxDataRate0
    }

    fn from_bits(bits: u8) -> (r: Option<Self>) {
        if bits & !(0xff as u8) == 0 {
            Some(TxDataRate0 { bits })
        } else {
            None
        }
    }

    fn bits(&self) -> (r: u8) {
        self.bits
    }
}

#[derive(Clone, Copy, Debug, PartialEq, Eq, Structural)]
pub struct ModulationModeControl1 {
    pub bits: u8,
}

impl Rfm22Reg for ModulationModeControl1 {
    open spec fn spec_reg() -> Rfm22RegVal {
        Rfm22RegVal::ModulationModeControl1
    }

    open spec fn spec_mask() -> u8 {
        0x3f
    }

    open spec fn spec_bits(&self) -> u8 {
        self.bits
    }

    fn reg() -> (r: Rfm22RegVal) {
        Rfm22RegVal::ModulationModeControl1
    }

    fn from_bits(bits: u8) -> (r: Option<Self>) {
        if bits & !(0x3f as u8) == 0 {
            Some(ModulationModeControl1 { bits })
        } else {
            None
        }
    }

    fn bits(&self) -> (r: u8) {
        self.bits
    }
}

#[derive(Clone, Copy, Debug, PartialEq, Eq, Structural)]
pub struct ModulationModeControl2 {
    pub bits: u8,
}

impl Rfm22Reg for ModulationModeControl2 {
    open spec fn spec_reg() -> Rfm22RegVal {
        Rfm22RegVal::ModulationModeControl2
    }

    open spec fn spec_mask() -> u8 {
        0xff
    }

    open spec fn spec_bits(&self) -> u8 {
        self.bits
    }

    fn reg() -> (r: Rfm22RegVal) {
        Rfm22RegVal::ModulationModeControl2
    }

    fn from_bits(bits: u8) -> (r: Option<Self>) {
        if bits & !(0xff as u8) == 0 {
            Some(ModulationModeControl2 { bits })
        } else {
            None
        }
    }

    fn bits(&self) -> (r: u8) {
        self.bits
    }
}

#[derive(Clone, Copy, Debug, PartialEq, Eq, Structural)]
pub struct FrequencyOffset1 {
    pub bits: u8,
}

impl Rfm22Reg for FrequencyOffset1 {
    open spec fn spec_reg() -> Rfm22RegVal {
        Rfm22RegVal::FrequencyOffset1
    }

    open spec fn spec_mask() -> u8 {
        0xff
    }

    open spec fn spec_bits(&self) -> u8 {
        self.bits
    }

    fn reg() -> (r: Rfm22RegVal) {
        Rfm22RegVal::FrequencyOffset1
    }

    fn from_bits(bits: u8) -> (r: Option<Self>) {
        if bits & !(0xff as u8) == 0 {
            Some(FrequencyOffset1 { bits })
        } else {
            None
        }
    }

    fn bits(&self) -> (r: u8) {
        self.bits
    }
}

#[derive(Clone, Copy, Debug, PartialEq, Eq, Structural)]
pub struct FrequencyOffset2 {
    pub bits: u8,
}

impl Rfm22Reg for FrequencyOffset2 {
    open spec fn spec_reg() -> Rfm22RegVal {
        Rfm22RegVal::FrequencyOffset2
    }

    open spec fn spec_mask() -> u8 {
        0x03
    }

    open spec fn spec_bits(&self) -> u8 {
        self.bits
    }

    fn reg() -> (r: Rfm22RegVal) {
        Rfm22RegVal::FrequencyOffset2
    }

    fn from_bits(bits: u8) -> (r: Option<Self>) {
        if bits & !(0x03 as u8) == 0 {
            Some(FrequencyOffset2 { bits })
        } else {
            None
        }
    }

    fn bits(&self) -> (r: u8) {
        self.bits
    }
}

#[derive(Clone, Copy, Debug, PartialEq, Eq, Structural)]
pub struct FrequencyBandSelect {
    pub bits: u8,
}

impl Rfm22Reg for FrequencyBandSelect {
    open spec fn spec_reg() -> Rfm22RegVal {
        Rfm22RegVal::FrequencyBandSelect
    }

    open spec fn spec_mask() -> u8 {
        0x7f
    }

    open spec fn spec_bits(&self) -> u8 {
        self.bits
    }

    fn reg() -> (r: Rfm22RegVal) {
        Rfm22RegVal::FrequencyBandSelect
    }

    fn from_bits(bits: u8) -> (r: Option<Self>) {
        if bits & !(0x7f as u8) == 0 {
            Some(FrequencyBandSelect { bits })
        } else {
            None
        }
    }

    fn bits(&self) -> (r: u8) {
        self.bits
    }
}

#[derive(Clone, Copy, Debug, PartialEq, Eq, Structural)]
pub struct CarrierFrequency1 {
    pub bits: u8,
}

impl Rfm22Reg for CarrierFrequency1 {
    open spec fn spec_reg() -> Rfm22RegVal {
        Rfm22RegVal::CarrierFrequency1
    }

    open spec fn spec_mask() -> u8 {
        0xff
    }

    open spec fn spec_bits(&self) -> u8 {
        self.bits
    }

    fn reg() -> (r: Rfm22RegVal) {
        Rfm22RegVal::CarrierFrequency1
    }

    fn from_bits(bits: u8) -> (r: Option<Self>) {
        if bits & !(0xff as u8) == 0 {
            Some(CarrierFrequency1 { bits })
        } else {
            None
        }
    }

    fn bits(&self) -> (r: u8) {
        self.bits
    }
}

#[derive(Clone, Copy, Debug, PartialEq, Eq, Structural)]
pub struct CarrierFrequency0 {
    pub bits: u8,
}

impl Rfm22Reg for CarrierFrequency0 {
    open spec fn spec_reg() -> Rfm22RegVal {
        Rfm22RegVal::CarrierFrequency0
    }

    open spec fn spec_mask() -> u8 {
        0xff
    }

    open spec fn spec_bits(&self) -> u8 {
        self.bits
    }

    fn reg() -> (r: Rfm22RegVal) {
        Rfm22RegVal::CarrierFrequency0
    }

    fn from_bits(bits: u8) -> (r: Option<Self>) {
        if bits & !(0xff as u8) == 0 {
            Some(CarrierFrequency0 { bits })
        } else {
            None
        }
    }

    fn bits(&self) -> (r: u8) {
        self.bits
    }
}

impl InterruptStatus1 {
    /// The empty status set.
    pub fn empty() -> (r: Self)
        ensures
            r.spec_bits() == 0,
    {
        InterruptStatus1 { bits: 0 }
    }

    /// The status set with exactly the given bits.
    pub fn of(bits: u8) -> (r: Self)
        ensures
            r.spec_bits() == bits,
    {
        InterruptStatus1 { bits }
    }

    /// Add every bit of `other` to this set.
    pub fn insert(&mut self, other: Self)
        ensures
            final(self).spec_bits() == old(self).spec_bits() | other.spec_bits(),
    {
        self.bits = self.bits | other.bits;
    }

    /// Drop every bit of `other` from this set.
    pub fn remove(&mut self, other: Self)
        ensures
            final(self).spec_bits() == old(self).spec_bits() & !other.spec_bits(),
    {
        self.bits = self.bits & !other.bits;
    }

    /// Keep only the bits that are also in `other`.
    pub fn mask_to(&mut self, other: Self)
        ensures
            final(self).spec_bits() == old(self).spec_bits() & other.spec_bits(),
    {
        self.bits = self.bits & other.bits;
    }

    /// Whether every bit of `other` is in this set.
    pub fn contains(&self, other: Self) -> (r: bool)
        ensures
            r == (self.spec_bits() & other.spec_bits() == other.spec_bits()),
    {
        self.bits & other.bits == other.bits
    }
}

impl core::convert::From<InterruptEnable1> for InterruptStatus1 {
    /// The status bits that the enable bits at the same positions gate.
    fn from(val: InterruptEnable1) -> (r: Self) {
        InterruptStatus1 { bits: val.bits }
    }
}

impl vstd::std_specs::convert::FromSpecImpl<InterruptEnable1> for InterruptStatus1 {
    open spec fn obeys_from_spec() -> bool {
        true
    }

    open spec fn from_spec(v: InterruptEnable1) -> Self {
        InterruptStatus1 { bits: v.spec_bits() }
    }
}

impl InterruptEnable1 {
    /// The empty enable set.
    pub fn empty() -> (r: Self)
        ensures
            r.spec_bits() == 0,
    {
        InterruptEnable1 { bits: 0 }
    }

    /// The enable set with exactly the given bits.
    pub fn of(bits: u8) -> (r: Self)
        ensures
            r.spec_bits() == bits,
    {
        InterruptEnable1 { bits }
    }
}

impl InterruptEnable2 {
    /// The empty enable set: the secondary interrupt bank fully disabled.
    pub fn empty() -> (r: Self)
        ensures
            r.spec_bits() == 0,
    {
        InterruptEnable2 { bits: 0 }
    }
}

impl OperatingFunctionControl1 {
    /// The control set with exactly the given bits.
    pub fn of(bits: u8) -> (r: Self)
        ensures
            r.spec_bits() == bits,
    {
        OperatingFunctionControl1 { bits }
    }

    /// Add every bit of `other` to this set.
    pub fn insert(&mut self, other: Self)
        ensures
            final(self).spec_bits() == old(self).spec_bits() | other.spec_bits(),
    {
        self.bits = self.bits | other.bits;
    }
}

impl OperatingFunctionControl2 {
    /// The control set with exactly the given bits.
    pub fn of(bits: u8) -> (r: Self)
        ensures
            r.spec_bits() == bits,
    {
        OperatingFunctionControl2 { bits }
    }

    /// Add every bit of `other` to this set.
    pub fn insert(&mut self, other: Self)
        ensures
            final(self).spec_bits() == old(self).spec_bits() | other.spec_bits(),
    {
        self.bits = self.bits | other.bits;
    }

    /// Drop every bit of `other` from this set.
    pub fn remove(&mut self, other: Self)
        ensures
            final(self).spec_bits() == old(self).spec_bits() & !other.spec_bits(),
    {
        self.bits = self.bits & !other.bits;
    }
}

impl DataAccessControl {
    /// The empty set: packet handling fully disabled.
    pub fn empty() -> (r: Self)
        ensures
            r.spec_bits() == 0,
    {
        DataAccessControl { bits: 0 }
    }
}

impl HeaderControl2 {
    /// The header control set with exactly the given bits.
    pub fn of(bits: u8) -> (r: Self)
        ensures
            r.spec_bits() == bits,
    {
        HeaderControl2 { bits }
    }
}

impl TxPower {
    /// Replace the three-bit power field, leaving the other bits alone.
    pub fn set_tx_power(&mut self, power: u8)
        requires
            power <= 0x7,
        ensures
            final(self).spec_bits() == (old(self).spec_bits() & !(TXPOW2 | TXPOW1 | TXPOW0)) | power,
    {
        self.bits = (self.bits & !(TXPOW2 | TXPOW1 | TXPOW0)) | power;
    }
}

impl TxDataRate1 {
    /// The high byte of a 16-bit TX data rate value.
    pub fn from_txdr(val: u16) -> (r: Self)
        ensures
            r.spec_bits() == (val >> 8u16) as u8,
    {
        TxDataRate1 { bits: (val >> 8u16) as u8 }
    }
}

impl TxDataRate0 {
    /// The low byte of a 16-bit TX data rate value.
    pub fn from_txdr(val: u16) -> (r: Self)
        ensures
            r.spec_bits() == val as u8,
    {
        TxDataRate0 { bits: #[verifier::truncate] (val as u8) }
    }
}

impl ModulationModeControl1 {
    /// Set the data-rate scale bit, leaving the other bits alone.
    pub fn set_txdrtscale(&mut self)
        ensures
            final(self).spec_bits() == old(self).spec_bits() | TXDRTSCALE,
    {
        self.bits = self.bits | TXDRTSCALE;
    }
}

/// The carrier modulation shapes the device offers.
#[derive(Clone, Copy, Debug, PartialEq, Eq, Structural)]
pub enum ModulationType {
    Unmodulated,
    OOK,
    FSK,
    GFSK,
}

impl ModulationType {
    /// The two-bit modulation-type field value for this shape.
    pub open spec fn spec_field(self) -> u8 {
        match self {
            ModulationType::Unmodulated => 0,
            ModulationType::OOK => MODTYP0,
            ModulationType::FSK => MODTYP1,
            ModulationType::GFSK => MODTYP1 | MODTYP0,
        }
    }

    pub fn field(self) -> (r: u8)
        ensures
            r == self.spec_field(),
    {
        match self {
            ModulationType::Unmodulated => 0,
            ModulationType::OOK => MODTYP0,
            ModulationType::FSK => MODTYP1,
            ModulationType::GFSK => MODTYP1 | MODTYP0,
        }
    }
}

/// The sources the transmitter can draw its data from.
#[derive(Clone, Copy, Debug, PartialEq, Eq, Structural)]
pub enum DataSource {
    DirectGPIO,
    DirectSDI,
    FIFO,
    PN9,
}

impl DataSource {
    /// The two-bit data-source field value for this source.
    pub open spec fn spec_field(self) -> u8 {
        match self {
            DataSource::DirectGPIO => 0,
            DataSource::DirectSDI => DTMOD0,
            DataSource::FIFO => DTMOD1,
            DataSource::PN9 => DTMOD1 | DTMOD0,
        }
    }

    pub fn field(self) -> (r: u8)
        ensures
            r == self.spec_field(),
    {
        match self {
            DataSource::DirectGPIO => 0,
            DataSource::DirectSDI => DTMOD0,
            DataSource::FIFO => DTMOD1,
            DataSource::PN9 => DTMOD1 | DTMOD0,
        }
    }
}

impl ModulationModeControl2 {
    /// Replace the modulation-type field, leaving the other bits alone.
    pub fn set_modtype(&mut self, ty: ModulationType)
        ensures
            final(self).spec_bits() == (old(self).spec_bits() & !(MODTYP0 | MODTYP1)) | ty.spec_field(),
    {
        self.bits = (self.bits & !(MODTYP0 | MODTYP1)) | ty.field();
    }

    /// Replace the data-source field, leaving the other bits alone.
    pub fn set_data_source(&mut self, source: DataSource)
        ensures
            final(self).spec_bits() == (old(self).spec_bits() & !(DTMOD0 | DTMOD1)) | source.spec_field(),
    {
        self.bits = (self.bits & !(DTMOD0 | DTMOD1)) | source.field();
    }
}

impl FrequencyOffset1 {
    /// The low byte of a frequency offset value.
    pub fn from_frequency_offset(val: u16) -> (r: Self)
        ensures
            r.spec_bits() == val as u8,
    {
        FrequencyOffset1 { bits: #[verifier::truncate] (val as u8) }
    }
}

impl FrequencyOffset2 {
    /// The two high bits of a 10-bit frequency offset value.
    pub fn from_frequency_offset(val: u16) -> (r: Self)
        requires
            val < 0x400,
        ensures
            r.spec_bits() == (val >> 8u16) as u8,
    {
        FrequencyOffset2 { bits: (val >> 8u16) as u8 }
    }
}

impl FrequencyBandSelect {
    /// The band-select value for a band number in 0..=31.
    pub fn from_band(band: u8) -> (r: Self)
        requires
            band <= 0x1f,
        ensures
            r.spec_bits() == band,
    {
        FrequencyBandSelect { bits: band }
    }

    /// Set the high-band-select bit, leaving the other bits alone.
    pub fn insert_hbsel(&mut self)
        ensures
            final(self).spec_bits() == old(self).spec_bits() | HBSEL,
    {
        self.bits = self.bits | HBSEL;
    }
}

impl CarrierFrequency1 {
    /// The high byte of a 16-bit carrier frequency value.
    pub fn from_carrier(val: u16) -> (r: Self)
        ensures
            r.spec_bits() == (val >> 8u16) as u8,
    {
        CarrierFrequency1 { bits: (val >> 8u16) as u8 }
    }
}

impl CarrierFrequency0 {
    /// The low byte of a 16-bit carrier frequency value.
    pub fn from_carrier(val: u16) -> (r: Self)
        ensures
            r.spec_bits() == val as u8,
    {
        CarrierFrequency0 { bits: #[verifier::truncate] (val as u8) }
    }
}

} // verus!
