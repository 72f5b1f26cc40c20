use vstd::prelude::*;

verus! {

/// One supported emulator: its name, the CPU it emulates and what it is.
#[derive(Debug, Clone)]
pub struct EmulatorInfo {
    pub name: String,
    pub cpu: String,
    pub description: String,
}

impl View for EmulatorInfo {
    type V = (Seq<char>, Seq<char>, Seq<char>);

    open spec fn view(&self) -> (Seq<char>, Seq<char>, Seq<char>) {
        (self.name@, self.cpu@, self.description@)
    }
}

/// The emulators and boards `fuzix` supports, in the order they are listed.
pub open spec fn catalog() -> Seq<(Seq<char>, Seq<char>, Seq<char>)> {
    seq![
        ("v68"@, "68000 (32-bit)"@, "Virtual68 platform with software MMU & IDE disk support (Recommended for 68k)"@),
        ("tiny68k"@, "68000 (32-bit)"@, "Tiny68K Single Board Computer emulation from EmulatorKit"@),
        ("mini68k"@, "68000 (32-bit)"@, "Mini68K SBC with CompactFlash support"@),
        ("rc2014"@, "Z80 (8-bit)"@, "RC2014 modular bus retrocomputer (Standard / SC108 / SC114)"@),
        ("rcbus-z80"@, "Z80 (8-bit)"@, "RCBus standard Z80 modular board"@),
        ("rcbus-z180"@, "Z180 (8/16-bit)"@, "RCBus Z180 high-speed enhanced Z80 board"@),
        ("cpmsim"@, "8080 / Z80 (8-bit)"@, "z80pack Cromemco / CP/M system simulator"@),
        ("swt6809"@, "6809 (8/16-bit)"@, "SWTPC 6809 computer system"@),
        ("rcbus-6502"@, "6502 (8-bit)"@, "RCBus 6502 processor system"@),
        ("altair8080"@, "8080 (8-bit)"@, "MITS Altair 8800 S-100 system"@),
    ]
}

fn info(name: &str, cpu: &str, description: &str) -> (r: EmulatorInfo)
    ensures
        r@ == (name@, cpu@, description@),
{
    EmulatorInfo {
        name: String::from_str(name),
        cpu: String::from_str(cpu),
        description: String::from_str(description),
    }
}

/// `fuzix emulators`: the supported emulators (see [`catalog`]).
pub fn supported_emulators() -> (r: Vec<EmulatorInfo>)
    ensures
        r@.map_values(|e: EmulatorInfo| e@) == catalog(),
{
    let mut r: Vec<EmulatorInfo> = Vec::new();
    r.push(info("v68", "68000 (32-bit)", "Virtual68 platform with software MMU & IDE disk support (Recommended for 68k)"));
    r.push(info("tiny68k", "68000 (32-bit)", "Tiny68K Single Board Computer emulation from EmulatorKit"));
    r.push(info("mini68k", "68000 (32-bit)", "Mini68K SBC with CompactFlash support"));
    r.push(info("rc2014", "Z80 (8-bit)", "RC2014 modular bus retrocomputer (Standard / SC108 / SC114)"));
    r.push(info("rcbus-z80", "Z80 (8-bit)", "RCBus standard Z80 modular board"));
    r.push(info("rcbus-z180", "Z180 (8/16-bit)", "RCBus Z180 high-speed enhanced Z80 board"));
    r.push(info("cpmsim", "8080 / Z80 (8-bit)", "z80pack Cromemco / CP/M system simulator"));
    r.push(info("swt6809", "6809 (8/16-bit)", "SWTPC 6809 computer system"));
    r.push(info("rcbus-6502", "6502 (8-bit)", "RCBus 6502 processor system"));
    r.push(info("altair8080", "8080 (8-bit)", "MITS Altair 8800 S-100 system"));
    assert(r@.map_values(|e: EmulatorInfo| e@) =~= catalog());
    r
}

} // verus!
