//! The categories of device that the host kernel knows, and their numbers.
//!
//! Every device belongs to one category. The host identifies a category by a
//! 16-bit number; the same number is embedded in every control code that is
//! meant for a device of that category.

use vstd::prelude::*;
use vstd::std_specs::convert::FromSpecImpl;

verus! {

pub const FILE_DEVICE_BEEP: u32 = 0x01;
pub const FILE_DEVICE_CD_ROM: u32 = 0x02;
pub const FILE_DEVICE_CD_ROM_FILE_SYSTEM: u32 = 0x03;
pub const FILE_DEVICE_CONTROLLER: u32 = 0x04;
pub const FILE_DEVICE_DATALINK: u32 = 0x05;
pub const FILE_DEVICE_DFS: u32 = 0x06;
pub const FILE_DEVICE_DISK: u32 = 0x07;
pub const FILE_DEVICE_DISK_FILE_SYSTEM: u32 = 0x08;
pub const FILE_DEVICE_FILE_SYSTEM: u32 = 0x09;
pub const FILE_DEVICE_INPORT_PORT: u32 = 0x0a;
pub const FILE_DEVICE_KEYBOARD: u32 = 0x0b;
pub const FILE_DEVICE_MAILSLOT: u32 = 0x0c;
pub const FILE_DEVICE_MIDI_IN: u32 = 0x0d;
pub const FILE_DEVICE_MIDI_OUT: u32 = 0x0e;
pub const FILE_DEVICE_MOUSE: u32 = 0x0f;
pub const FILE_DEVICE_MULTI_UNC_PROVIDER: u32 = 0x10;
pub const FILE_DEVICE_NAMED_PIPE: u32 = 0x11;
pub const FILE_DEVICE_NETWORK: u32 = 0x12;
pub const FILE_DEVICE_NETWORK_BROWSER: u32 = 0x13;
pub const FILE_DEVICE_NETWORK_FILE_SYSTEM: u32 = 0x14;
pub const FILE_DEVICE_NULL: u32 = 0x15;
pub const FILE_DEVICE_PARALLEL_PORT: u32 = 0x16;
pub const FILE_DEVICE_PHYSICAL_NETCARD: u32 = 0x17;
pub const FILE_DEVICE_PRINTER: u32 = 0x18;
pub const FILE_DEVICE_SCANNER: u32 = 0x19;
pub const FILE_DEVICE_SERIAL_MOUSE_PORT: u32 = 0x1a;
pub const FILE_DEVICE_SERIAL_PORT: u32 = 0x1b;
pub const FILE_DEVICE_SCREEN: u32 = 0x1c;
pub const FILE_DEVICE_SOUND: u32 = 0x1d;
pub const FILE_DEVICE_STREAMS: u32 = 0x1e;
pub const FILE_DEVICE_TAPE: u32 = 0x1f;
pub const FILE_DEVICE_TAPE_FILE_SYSTEM: u32 = 0x20;
pub const FILE_DEVICE_TRANSPORT: u32 = 0x21;
pub const FILE_DEVICE_UNKNOWN: u32 = 0x22;
pub const FILE_DEVICE_VIDEO: u32 = 0x23;
pub const FILE_DEVICE_VIRTUAL_DISK: u32 = 0x24;
pub const FILE_DEVICE_WAVE_IN: u32 = 0x25;
pub const FILE_DEVICE_WAVE_OUT: u32 = 0x26;
pub const FILE_DEVICE_8042_PORT: u32 = 0x27;
pub const FILE_DEVICE_NETWORK_REDIRECTOR: u32 = 0x28;
pub const FILE_DEVICE_BATTERY: u32 = 0x29;
pub const FILE_DEVICE_BUS_EXTENDER: u32 = 0x2a;
pub const FILE_DEVICE_MODEM: u32 = 0x2b;
pub const FILE_DEVICE_VDM: u32 = 0x2c;
pub const FILE_DEVICE_MASS_STORAGE: u32 = 0x2d;
pub const FILE_DEVICE_SMB: u32 = 0x2e;
pub const FILE_DEVICE_KS: u32 = 0x2f;
pub const FILE_DEVICE_CHANGER: u32 = 0x30;
pub const FILE_DEVICE_SMARTCARD: u32 = 0x31;
pub const FILE_DEVICE_ACPI: u32 = 0x32;
pub const FILE_DEVICE_DVD: u32 = 0x33;
pub const FILE_DEVICE_FULLSCREEN_VIDEO: u32 = 0x34;
pub const FILE_DEVICE_DFS_FILE_SYSTEM: u32 = 0x35;
pub const FILE_DEVICE_DFS_VOLUME: u32 = 0x36;
pub const FILE_DEVICE_SERENUM: u32 = 0x37;
pub const FILE_DEVICE_TERMSRV: u32 = 0x38;
pub const FILE_DEVICE_KSEC: u32 = 0x39;
pub const FILE_DEVICE_FIPS: u32 = 0x3a;

/// A category of device.
#[derive(Copy, Clone, Debug, PartialEq, Eq, Structural)]
pub enum DeviceType {
    Port8042,
    Acpi,
    Battery,
    Beep,
    BusExtender,
    Cdrom,
    CdromFileSystem,
    Changer,
    Controller,
    DataLink,
    Dfs,
    DfsFileSystem,
    DfsVolume,
    Disk,
    DiskFileSystem,
    Dvd,
    FileSystem,
    Fips,
    FullscreenVideo,
    InportPort,
    Keyboard,
    Ks,
    Ksec,
    Mailslot,
    MassStorage,
    MidiIn,
    MidiOut,
    Modem,
    Mouse,
    MultiUncProvider,
    NamedPipe,
    Network,
    NetworkBrowser,
    NetworkFileSystem,
    NetworkRedirector,
    Null,
    ParallelPort,
    PhysicalNetcard,
    Printer,
    Scanner,
    Screen,
    Serenum,
    SerialPort,
    SerialMousePort,
    Smartcard,
    Smb,
    Sound,
    Streams,
    Tape,
    TapeFileSystem,
    Termsrv,
    Transport,
    Unknown,
    Vdm,
    Video,
    VirtualDisk,
    WaveIn,
    WaveOut,
}

impl DeviceType {
    /// The number by which the host identifies this category.
    pub open spec fn code(self) -> u32 {
        match self {
            DeviceType::Port8042 => FILE_DEVICE_8042_PORT,
            DeviceType::Acpi => FILE_DEVICE_ACPI,
            DeviceType::Battery => FILE_DEVICE_BATTERY,
            DeviceType::Beep => FILE_DEVICE_BEEP,
            DeviceType::BusExtender => FILE_DEVICE_BUS_EXTENDER,
            DeviceType::Cdrom => FILE_DEVICE_CD_ROM,
            DeviceType::CdromFileSystem => FILE_DEVICE_CD_ROM_FILE_SYSTEM,
            DeviceType::Changer => FILE_DEVICE_CHANGER,
            DeviceType::Controller => FILE_DEVICE_CONTROLLER,
            DeviceType::DataLink => FILE_DEVICE_DATALINK,
            DeviceType::Dfs => FILE_DEVICE_DFS,
            DeviceType::DfsFileSystem => FILE_DEVICE_DFS_FILE_SYSTEM,
            DeviceType::DfsVolume => FILE_DEVICE_DFS_VOLUME,
            DeviceType::Disk => FILE_DEVICE_DISK,
            DeviceType::DiskFileSystem => FILE_DEVICE_DISK_FILE_SYSTEM,
            DeviceType::Dvd => FILE_DEVICE_DVD,
            DeviceType::FileSystem => FILE_DEVICE_FILE_SYSTEM,
            DeviceType::Fips => FILE_DEVICE_FIPS,
            DeviceType::FullscreenVideo => FILE_DEVICE_FULLSCREEN_VIDEO,
            DeviceType::InportPort => FILE_DEVICE_INPORT_PORT,
            DeviceType::Keyboard => FILE_DEVICE_KEYBOARD,
            DeviceType::Ks => FILE_DEVICE_KS,
            DeviceType::Ksec => FILE_DEVICE_KSEC,
            DeviceType::Mailslot => FILE_DEVICE_MAILSLOT,
            DeviceType::MassStorage => FILE_DEVICE_MASS_STORAGE,
            DeviceType::MidiIn => FILE_DEVICE_MIDI_IN,
            DeviceType::MidiOut => FILE_DEVICE_MIDI_OUT,
            DeviceType::Modem => FILE_DEVICE_MODEM,
            DeviceType::Mouse => FILE_DEVICE_MOUSE,
            DeviceType::MultiUncProvider => FILE_DEVICE_MULTI_UNC_PROVIDER,
            DeviceType::NamedPipe => FILE_DEVICE_NAMED_PIPE,
            DeviceType::Network => FILE_DEVICE_NETWORK,
            DeviceType::NetworkBrowser => FILE_DEVICE_NETWORK_BROWSER,
            DeviceType::NetworkFileSystem => FILE_DEVICE_NETWORK_FILE_SYSTEM,
            DeviceType::NetworkRedirector => FILE_DEVICE_NETWORK_REDIRECTOR,
            DeviceType::Null => FILE_DEVICE_NULL,
            DeviceType::ParallelPort => FILE_DEVICE_PARALLEL_PORT,
            DeviceType::PhysicalNetcard => FILE_DEVICE_PHYSICAL_NETCARD,
            DeviceType::Printer => FILE_DEVICE_PRINTER,
            DeviceType::Scanner => FILE_DEVICE_SCANNER,
            DeviceType::Screen => FILE_DEVICE_SCREEN,
            DeviceType::Serenum => FILE_DEVICE_SERENUM,
            DeviceType::SerialPort => FILE_DEVICE_SERIAL_PORT,
            DeviceType::SerialMousePort => FILE_DEVICE_SERIAL_MOUSE_PORT,
            DeviceType::Smartcard => FILE_DEVICE_SMARTCARD,
            DeviceType::Smb => FILE_DEVICE_SMB,
            DeviceType::Sound => FILE_DEVICE_SOUND,
            DeviceType::Streams => FILE_DEVICE_STREAMS,
            DeviceType::Tape => FILE_DEVICE_TAPE,
            DeviceType::TapeFileSystem => FILE_DEVICE_TAPE_FILE_SYSTEM,
            DeviceType::Termsrv => FILE_DEVICE_TERMSRV,
            DeviceType::Transport => FILE_DEVICE_TRANSPORT,
            DeviceType::Unknown => FILE_DEVICE_UNKNOWN,
            DeviceType::Vdm => FILE_DEVICE_VDM,
            DeviceType::Video => FILE_DEVICE_VIDEO,
            DeviceType::VirtualDisk => FILE_DEVICE_VIRTUAL_DISK,
            DeviceType::WaveIn => FILE_DEVICE_WAVE_IN,
            DeviceType::WaveOut => FILE_DEVICE_WAVE_OUT,
        }
    }

    /// The category that a number identifies. A number that identifies no
    /// category of this list stands for [`DeviceType::Unknown`].
    pub open spec fn from_code(value: u32) -> DeviceType {
        if value == FILE_DEVICE_8042_PORT {
            DeviceType::Port8042
        } else if value == FILE_DEVICE_ACPI {
            DeviceType::Acpi
        } else if value == FILE_DEVICE_BATTERY {
            DeviceType::Battery
        } else if value == FILE_DEVICE_BEEP {
            DeviceType::Beep
        } else if value == FILE_DEVICE_BUS_EXTENDER {
            DeviceType::BusExtender
        } else if value == FILE_DEVICE_CD_ROM {
            DeviceType::Cdrom
        } else if value == FILE_DEVICE_CD_ROM_FILE_SYSTEM {
            DeviceType::CdromFileSystem
        } else if value == FILE_DEVICE_CHANGER {
            DeviceType::Changer
        } else if value == FILE_DEVICE_CONTROLLER {
            DeviceType::Controller
        } else if value == FILE_DEVICE_DATALINK {
            DeviceType::DataLink
        } else if value == FILE_DEVICE_DFS {
            DeviceType::Dfs
        } else if value == FILE_DEVICE_DFS_FILE_SYSTEM {
            DeviceType::DfsFileSystem
        } else if value == FILE_DEVICE_DFS_VOLUME {
            DeviceType::DfsVolume
        } else if value == FILE_DEVICE_DISK {
            DeviceType::Disk
        } else if value == FILE_DEVICE_DISK_FILE_SYSTEM {
            DeviceType::DiskFileSystem
        } else if value == FILE_DEVICE_DVD {
            DeviceType::Dvd
        } else if value == FILE_DEVICE_FILE_SYSTEM {
            DeviceType::FileSystem
        } else if value == FILE_DEVICE_FIPS {
            DeviceType::Fips
        } else if value == FILE_DEVICE_FULLSCREEN_VIDEO {
            DeviceType::FullscreenVideo
        } else if value == FILE_DEVICE_INPORT_PORT {
            DeviceType::InportPort
        } else if value == FILE_DEVICE_KEYBOARD {
            DeviceType::Keyboard
        } else if value == FILE_DEVICE_KS {
            DeviceType::Ks
        } else if value == FILE_DEVICE_KSEC {
            DeviceType::Ksec
        } else if value == FILE_DEVICE_MAILSLOT {
            DeviceType::Mailslot
        } else if value == FILE_DEVICE_MASS_STORAGE {
            DeviceType::MassStorage
        } else if value == FILE_DEVICE_MIDI_IN {
            DeviceType::MidiIn
        } else if value == FILE_DEVICE_MIDI_OUT {
            DeviceType::MidiOut
        } else if value == FILE_DEVICE_MODEM {
            DeviceType::Modem
        } else if value == FILE_DEVICE_MOUSE {
            DeviceType::Mouse
        } else if value == FILE_DEVICE_MULTI_UNC_PROVIDER {
            DeviceType::MultiUncProvider
        } else if value == FILE_DEVICE_NAMED_PIPE {
            DeviceType::NamedPipe
        } else if value == FILE_DEVICE_NETWORK {
            DeviceType::Network
        } else if value == FILE_DEVICE_NETWORK_BROWSER {
            DeviceType::NetworkBrowser
        } else if value == FILE_DEVICE_NETWORK_FILE_SYSTEM {
            DeviceType::NetworkFileSystem
        } else if value == FILE_DEVICE_NETWORK_REDIRECTOR {
            DeviceType::NetworkRedirector
        } else if value == FILE_DEVICE_NULL {
            DeviceType::Null
        } else if value == FILE_DEVICE_PARALLEL_PORT {
            DeviceType::ParallelPort
        } else if value == FILE_DEVICE_PHYSICAL_NETCARD {
            DeviceType::PhysicalNetcard
        } else if value == FILE_DEVICE_PRINTER {
            DeviceType::Printer
        } else if value == FILE_DEVICE_SCANNER {
            DeviceType::Scanner
        } else if value == FILE_DEVICE_SCREEN {
            DeviceType::Screen
        } else if value == FILE_DEVICE_SERENUM {
            DeviceType::Serenum
        } else if value == FILE_DEVICE_SERIAL_PORT {
            DeviceType::SerialPort
        } else if value == FILE_DEVICE_SERIAL_MOUSE_PORT {
            DeviceType::SerialMousePort
        } else if value == FILE_DEVICE_SMARTCARD {
            DeviceType::Smartcard
        } else if value == FILE_DEVICE_SMB {
            DeviceType::Smb
        } else if value == FILE_DEVICE_SOUND {
            DeviceType::Sound
        } else if value == FILE_DEVICE_STREAMS {
            DeviceType::Streams
        } else if value == FILE_DEVICE_TAPE {
            DeviceType::Tape
        } else if value == FILE_DEVICE_TAPE_FILE_SYSTEM {
            DeviceType::TapeFileSystem
        } else if value == FILE_DEVICE_TERMSRV {
            DeviceType::Termsrv
        } else if value == FILE_DEVICE_TRANSPORT {
            DeviceType::Transport
        } else if value == FILE_DEVICE_UNKNOWN {
            DeviceType::Unknown
        } else if value == FILE_DEVICE_VDM {
            DeviceType::Vdm
        } else if value == FILE_DEVICE_VIDEO {
            DeviceType::Video
        } else if value == FILE_DEVICE_VIRTUAL_DISK {
            DeviceType::VirtualDisk
        } else if value == FILE_DEVICE_WAVE_IN {
            DeviceType::WaveIn
        } else if value == FILE_DEVICE_WAVE_OUT {
            DeviceType::WaveOut
        } else {
            DeviceType::Unknown
        }
    }

    /// Every category is found again from its own number.
    pub proof fn lemma_from_code_of_code(self)
        ensures
            DeviceType::from_code(self.code()) == self,
            1 <= self.code() <= 58,
    {
    }

    /// A number is the number of the category it identifies, unless it
    /// identifies none.
    pub proof fn lemma_code_of_from_code(value: u32)
        ensures
            1 <= value <= 58 ==> DeviceType::from_code(value).code() == value,
            !(1 <= value <= 58) ==> DeviceType::from_code(value) == DeviceType::Unknown,
    {
    }
}

impl From<DeviceType> for u32 {
    fn from(value: DeviceType) -> (code: u32) {
        match value {
            DeviceType::Port8042 => FILE_DEVICE_8042_PORT,
            DeviceType::Acpi => FILE_DEVICE_ACPI,
            DeviceType::Battery => FILE_DEVICE_BATTERY,
            DeviceType::Beep => FILE_DEVICE_BEEP,
            DeviceType::BusExtender => FILE_DEVICE_BUS_EXTENDER,
            DeviceType::Cdrom => FILE_DEVICE_CD_ROM,
            DeviceType::CdromFileSystem => FILE_DEVICE_CD_ROM_FILE_SYSTEM,
            DeviceType::Changer => FILE_DEVICE_CHANGER,
            DeviceType::Controller => FILE_DEVICE_CONTROLLER,
            DeviceType::DataLink => FILE_DEVICE_DATALINK,
            DeviceType::Dfs => FILE_DEVICE_DFS,
            DeviceType::DfsFileSystem => FILE_DEVICE_DFS_FILE_SYSTEM,
            DeviceType::DfsVolume => FILE_DEVICE_DFS_VOLUME,
            DeviceType::Disk => FILE_DEVICE_DISK,
            DeviceType::DiskFileSystem => FILE_DEVICE_DISK_FILE_SYSTEM,
            DeviceType::Dvd => FILE_DEVICE_DVD,
            DeviceType::FileSystem => FILE_DEVICE_FILE_SYSTEM,
            DeviceType::Fips => FILE_DEVICE_FIPS,
            DeviceType::FullscreenVideo => FILE_DEVICE_FULLSCREEN_VIDEO,
            DeviceType::InportPort => FILE_DEVICE_INPORT_PORT,
            DeviceType::Keyboard => FILE_DEVICE_KEYBOARD,
            DeviceType::Ks => FILE_DEVICE_KS,
            DeviceType::Ksec => FILE_DEVICE_KSEC,
            DeviceType::Mailslot => FILE_DEVICE_MAILSLOT,
            DeviceType::MassStorage => FILE_DEVICE_MASS_STORAGE,
            DeviceType::MidiIn => FILE_DEVICE_MIDI_IN,
            DeviceType::MidiOut => FILE_DEVICE_MIDI_OUT,
            DeviceType::Modem => FILE_DEVICE_MODEM,
            DeviceType::Mouse => FILE_DEVICE_MOUSE,
            DeviceType::MultiUncProvider => FILE_DEVICE_MULTI_UNC_PROVIDER,
            DeviceType::NamedPipe => FILE_DEVICE_NAMED_PIPE,
            DeviceType::Network => FILE_DEVICE_NETWORK,
            DeviceType::NetworkBrowser => FILE_DEVICE_NETWORK_BROWSER,
            DeviceType::NetworkFileSystem => FILE_DEVICE_NETWORK_FILE_SYSTEM,
            DeviceType::NetworkRedirector => FILE_DEVICE_NETWORK_REDIRECTOR,
            DeviceType::Null => FILE_DEVICE_NULL,
            DeviceType::ParallelPort => FILE_DEVICE_PARALLEL_PORT,
            DeviceType::PhysicalNetcard => FILE_DEVICE_PHYSICAL_NETCARD,
            DeviceType::Printer => FILE_DEVICE_PRINTER,
            DeviceType::Scanner => FILE_DEVICE_SCANNER,
            DeviceType::Screen => FILE_DEVICE_SCREEN,
            DeviceType::Serenum => FILE_DEVICE_SERENUM,
            DeviceType::SerialPort => FILE_DEVICE_SERIAL_PORT,
            DeviceType::SerialMousePort => FILE_DEVICE_SERIAL_MOUSE_PORT,
            DeviceType::Smartcard => FILE_DEVICE_SMARTCARD,
            DeviceType::Smb => FILE_DEVICE_SMB,
            DeviceType::Sound => FILE_DEVICE_SOUND,
            DeviceType::Streams => FILE_DEVICE_STREAMS,
            DeviceType::Tape => FILE_DEVICE_TAPE,
            DeviceType::TapeFileSystem => FILE_DEVICE_TAPE_FILE_SYSTEM,
            DeviceType::Termsrv => FILE_DEVICE_TERMSRV,
            DeviceType::Transport => FILE_DEVICE_TRANSPORT,
            DeviceType::Unknown => FILE_DEVICE_UNKNOWN,
            DeviceType::Vdm => FILE_DEVICE_VDM,
            DeviceType::Video => FILE_DEVICE_VIDEO,
            DeviceType::VirtualDisk => FILE_DEVICE_VIRTUAL_DISK,
            DeviceType::WaveIn => FILE_DEVICE_WAVE_IN,
            DeviceType::WaveOut => FILE_DEVICE_WAVE_OUT,
        }
    }
}

impl FromSpecImpl<DeviceType> for u32 {
    open spec fn obeys_from_spec() -> bool {
        true
    }

    open spec fn from_spec(value: DeviceType) -> u32 {
        value.code()
    }
}

impl From<u32> for DeviceType {
    fn from(value: u32) -> (device_type: DeviceType) {
        match value {
            FILE_DEVICE_8042_PORT => DeviceType::Port8042,
            FILE_DEVICE_ACPI => DeviceType::Acpi,
            FILE_DEVICE_BATTERY => DeviceType::Battery,
            FILE_DEVICE_BEEP => DeviceType::Beep,
            FILE_DEVICE_BUS_EXTENDER => DeviceType::BusExtender,
            FILE_DEVICE_CD_ROM => DeviceType::Cdrom,
            FILE_DEVICE_CD_ROM_FILE_SYSTEM => DeviceType::CdromFileSystem,
            FILE_DEVICE_CHANGER => DeviceType::Changer,
            FILE_DEVICE_CONTROLLER => DeviceType::Controller,
            FILE_DEVICE_DATALINK => DeviceType::DataLink,
            FILE_DEVICE_DFS => DeviceType::Dfs,
            FILE_DEVICE_DFS_FILE_SYSTEM => DeviceType::DfsFileSystem,
            FILE_DEVICE_DFS_VOLUME => DeviceType::DfsVolume,
            FILE_DEVICE_DISK => DeviceType::Disk,
            FILE_DEVICE_DISK_FILE_SYSTEM => DeviceType::DiskFileSystem,
            FILE_DEVICE_DVD => DeviceType::Dvd,
            FILE_DEVICE_FILE_SYSTEM => DeviceType::FileSystem,
            FILE_DEVICE_FIPS => DeviceType::Fips,
            FILE_DEVICE_FULLSCREEN_VIDEO => DeviceType::FullscreenVideo,
            FILE_DEVICE_INPORT_PORT => DeviceType::InportPort,
            FILE_DEVICE_KEYBOARD => DeviceType::Keyboard,
            FILE_DEVICE_KS => DeviceType::Ks,
            FILE_DEVICE_KSEC => DeviceType::Ksec,
            FILE_DEVICE_MAILSLOT => DeviceType::Mailslot,
            FILE_DEVICE_MASS_STORAGE => DeviceType::MassStorage,
            FILE_DEVICE_MIDI_IN => DeviceType::MidiIn,
            FILE_DEVICE_MIDI_OUT => DeviceType::MidiOut,
            FILE_DEVICE_MODEM => DeviceType::Modem,
            FILE_DEVICE_MOUSE => DeviceType::Mouse,
            FILE_DEVICE_MULTI_UNC_PROVIDER => DeviceType::MultiUncProvider,
            FILE_DEVICE_NAMED_PIPE => DeviceType::NamedPipe,
            FILE_DEVICE_NETWORK => DeviceType::Network,
            FILE_DEVICE_NETWORK_BROWSER => DeviceType::NetworkBrowser,
            FILE_DEVICE_NETWORK_FILE_SYSTEM => DeviceType::NetworkFileSystem,
            FILE_DEVICE_NETWORK_REDIRECTOR => DeviceType::NetworkRedirector,
            FILE_DEVICE_NULL => DeviceType::Null,
            FILE_DEVICE_PARALLEL_PORT => DeviceType::ParallelPort,
            FILE_DEVICE_PHYSICAL_NETCARD => DeviceType::PhysicalNetcard,
            FILE_DEVICE_PRINTER => DeviceType::Printer,
            FILE_DEVICE_SCANNER => DeviceType::Scanner,
            FILE_DEVICE_SCREEN => DeviceType::Screen,
            FILE_DEVICE_SERENUM => DeviceType::Serenum,
            FILE_DEVICE_SERIAL_PORT => DeviceType::SerialPort,
            FILE_DEVICE_SERIAL_MOUSE_PORT => DeviceType::SerialMousePort,
            FILE_DEVICE_SMARTCARD => DeviceType::Smartcard,
            FILE_DEVICE_SMB => DeviceType::Smb,
            FILE_DEVICE_SOUND => DeviceType::Sound,
            FILE_DEVICE_STREAMS => DeviceType::Streams,
            FILE_DEVICE_TAPE => DeviceType::Tape,
            FILE_DEVICE_TAPE_FILE_SYSTEM => DeviceType::TapeFileSystem,
            FILE_DEVICE_TERMSRV => DeviceType::Termsrv,
            FILE_DEVICE_TRANSPORT => DeviceType::Transport,
            FILE_DEVICE_UNKNOWN => DeviceType::Unknown,
            FILE_DEVICE_VDM => DeviceType::Vdm,
            FILE_DEVICE_VIDEO => DeviceType::Video,
            FILE_DEVICE_VIRTUAL_DISK => DeviceType::VirtualDisk,
            FILE_DEVICE_WAVE_IN => DeviceType::WaveIn,
            FILE_DEVICE_WAVE_OUT => DeviceType::WaveOut,
            _ => DeviceType::Unknown,
        }
    }
}

impl FromSpecImpl<u32> for DeviceType {
    open spec fn obeys_from_spec() -> bool {
        true
    }

    open spec fn from_spec(value: u32) -> DeviceType {
        DeviceType::from_code(value)
    }
}

} // verus!
