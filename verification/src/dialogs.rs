//! What the front end's dialogs hold while the operator decides.

use vstd::prelude::*;
use crate::operations::dispatch::{Job, JobView};
use crate::operations::FilesystemType;
use crate::text::copy;

verus! {

/// The operation that a confirmation dialog asks about.
#[derive(Debug, Clone, PartialEq, Eq)]
pub enum ConfirmationOperation {
    /// No operation awaits confirmation.
    Nothing,
    FormatPartition { partition: String, fs_type: FilesystemType },
    FormatDisk { disk: String, fs_type: FilesystemType },
    DeletePartition { partition: String },
    CreatePartitionTable { disk: String, table_type: String },
    CreatePartition { disk: String, size: String, fs_type: FilesystemType },
    ResizePartition { partition: String, new_size: String },
    UnlockLuksDevice { device: String, mapper_name: String },
    LockLuksDevice { mapper_name: String },
    EncryptPartition { partition: String, fs_type: FilesystemType },
}

/// The mathematical content of a [`ConfirmationOperation`].
pub enum ConfirmationView {
    Nothing,
    FormatPartition { partition: Seq<char>, fs_type: FilesystemType },
    FormatDisk { disk: Seq<char>, fs_type: FilesystemType },
    DeletePartition { partition: Seq<char> },
    CreatePartitionTable { disk: Seq<char>, table_type: Seq<char> },
    CreatePartition { disk: Seq<char>, size: Seq<char>, fs_type: FilesystemType },
    ResizePartition { partition: Seq<char>, new_size: Seq<char> },
    UnlockLuksDevice { device: Seq<char>, mapper_name: Seq<char> },
    LockLuksDevice { mapper_name: Seq<char> },
    EncryptPartition { partition: Seq<char>, fs_type: FilesystemType },
}

impl View for ConfirmationOperation {
    type V = ConfirmationView;

    open spec fn view(&self) -> ConfirmationView {
        match self {
            ConfirmationOperation::Nothing => ConfirmationView::Nothing,
            ConfirmationOperation::FormatPartition {
                partition,
                fs_type,
            } => ConfirmationView::FormatPartition { partition: partition@, fs_type: *fs_type },
            ConfirmationOperation::FormatDisk { disk, fs_type } => ConfirmationView::FormatDisk {
                disk: disk@,
                fs_type: *fs_type,
            },
            ConfirmationOperation::DeletePartition {
                partition,
            } => ConfirmationView::DeletePartition { partition: partition@ },
            ConfirmationOperation::CreatePartitionTable {
                disk,
                table_type,
            } => ConfirmationView::CreatePartitionTable { disk: disk@, table_type: table_type@ },
            ConfirmationOperation::CreatePartition {
                disk,
                size,
                fs_type,
            } => ConfirmationView::CreatePartition {
                disk: disk@,
                size: size@,
                fs_type: *fs_type,
            },
            ConfirmationOperation::ResizePartition {
                partition,
                new_size,
            } => ConfirmationView::ResizePartition { partition: partition@, new_size: new_size@ },
            ConfirmationOperation::UnlockLuksDevice {
                device,
                mapper_name,
            } => ConfirmationView::UnlockLuksDevice { device: device@, mapper_name: mapper_name@ },
            ConfirmationOperation::LockLuksDevice {
                mapper_name,
            } => ConfirmationView::LockLuksDevice { mapper_name: mapper_name@ },
            ConfirmationOperation::EncryptPartition {
                partition,
                fs_type,
            } => ConfirmationView::EncryptPartition { partition: partition@, fs_type: *fs_type },
        }
    }
}

/// The job that a confirmed operation stands for, with the passphrase that
/// was entered for it. To encrypt a partition is to encrypt it and to make
/// the chosen filesystem inside.
pub open spec fn job_of(op: ConfirmationView, passphrase: Seq<char>) -> Option<JobView> {
    match op {
        ConfirmationView::Nothing => None,
        ConfirmationView::FormatPartition { partition, fs_type } => Some(
            JobView::Format { device: partition, fs: fs_type },
        ),
        ConfirmationView::FormatDisk { disk, fs_type } => Some(
            JobView::FormatWholeDisk { disk, fs: fs_type },
        ),
        ConfirmationView::DeletePartition { partition } => Some(
            JobView::DeletePartition { partition },
        ),
        ConfirmationView::CreatePartitionTable { disk, table_type } => Some(
            JobView::CreatePartitionTable { disk, table_type },
        ),
        ConfirmationView::CreatePartition { disk, size, fs_type } => Some(
            JobView::CreatePartition { disk, size, fs: Some(fs_type) },
        ),
        ConfirmationView::ResizePartition { partition, new_size } => Some(
            JobView::ResizePartition { partition, new_size },
        ),
        ConfirmationView::UnlockLuksDevice { device, mapper_name } => Some(
            JobView::UnlockLuks { device, passphrase, mapper_name },
        ),
        ConfirmationView::LockLuksDevice { mapper_name } => Some(JobView::LockLuks { mapper_name }),
        ConfirmationView::EncryptPartition { partition, fs_type } => Some(
            JobView::EncryptAndFormat { partition, passphrase, fs: fs_type },
        ),
    }
}

impl ConfirmationOperation {
    /// The job that the operation stands for once it is confirmed.
    pub fn job(&self, passphrase: &str) -> (r: Option<Job>)
        ensures
            match r {
                Some(j) => job_of(self@, passphrase@) == Some(j@),
                None => job_of(self@, passphrase@) is None,
            },
    {
        match self {
            ConfirmationOperation::Nothing => None,
            ConfirmationOperation::FormatPartition { partition, fs_type } => Some(
                Job::Format { device: copy(partition.as_str()), fs: *fs_type },
            ),
            ConfirmationOperation::FormatDisk { disk, fs_type } => Some(
                Job::FormatWholeDisk { disk: copy(disk.as_str()), fs: *fs_type },
            ),
            ConfirmationOperation::DeletePartition { partition } => Some(
                Job::DeletePartition { partition: copy(partition.as_str()) },
            ),
            ConfirmationOperation::CreatePartitionTable { disk, table_type } => Some(
                Job::CreatePartitionTable {
                    disk: copy(disk.as_str()),
                    table_type: copy(table_type.as_str()),
                },
            ),
            ConfirmationOperation::CreatePartition { disk, size, fs_type } => Some(
                Job::CreatePartition {
                    disk: copy(disk.as_str()),
                    size: copy(size.as_str()),
                    fs: Some(*fs_type),
                },
            ),
            ConfirmationOperation::ResizePartition { partition, new_size } => Some(
                Job::ResizePartition {
                    partition: copy(partition.as_str()),
                    new_size: copy(new_size.as_str()),
                },
            ),
            ConfirmationOperation::UnlockLuksDevice { device, mapper_name } => Some(
                Job::UnlockLuks {
                    device: copy(device.as_str()),
                    passphrase: copy(passphrase),
                    mapper_name: copy(mapper_name.as_str()),
                },
            ),
            ConfirmationOperation::LockLuksDevice { mapper_name } => Some(
                Job::LockLuks { mapper_name: copy(mapper_name.as_str()) },
            ),
            ConfirmationOperation::EncryptPartition { partition, fs_type } => Some(
                Job::EncryptAndFormat {
                    partition: copy(partition.as_str()),
                    passphrase: copy(passphrase),
                    fs: *fs_type,
                },
            ),
        }
    }
}

/// A dialog that asks the operator to confirm an operation.
#[derive(Debug)]
pub struct ConfirmationDialog {
    pub show_dialog: bool,
    pub title: String,
    pub message: String,
    pub details: Vec<(String, String)>,
    pub selected: usize,
    pub operation: ConfirmationOperation,
}

impl Default for ConfirmationDialog {
    fn default() -> (d: ConfirmationDialog)
        ensures
            !d.show_dialog,
            d.title@.len() == 0,
            d.message@.len() == 0,
            d.details@.len() == 0,
            d.selected == 0,
            d.operation@ == ConfirmationView::Nothing,
    {
        ConfirmationDialog {
            show_dialog: false,
            title: String::new(),
            message: String::new(),
            details: Vec::new(),
            selected: 0,
            operation: ConfirmationOperation::Nothing,
        }
    }
}

impl ConfirmationDialog {
    /// Moves the selection to the other of the two buttons.
    pub fn toggle(&mut self)
        ensures
            *final(self) == (ConfirmationDialog {
                selected: if old(self).selected == 0 {
                    1usize
                } else {
                    0usize
                },
                ..*old(self)
            }),
    {
        self.selected = if self.selected == 0 {
            1
        } else {
            0
        };
    }
}

/// The pane that has the keyboard.
#[derive(Debug, Clone, Copy, PartialEq, Eq, Structural)]
pub enum FocusedBlock {
    Disks,
    Partitions,
    DiskInfo,
}

/// What the partition dialog is used for.
#[derive(Debug, Clone, Copy, PartialEq, Eq, Structural)]
pub enum PartitionDialogMode {
    SelectTableType,
    CreatePartition,
}

/// Where the operator is in the making of a partition.
#[derive(Debug, Clone, Copy, PartialEq, Eq, Structural)]
pub enum CreatePartitionStep {
    EnterSize,
    SelectFilesystem,
}

/// What a passphrase is asked for.
#[derive(Debug, Clone, Copy, PartialEq, Eq, Structural)]
pub enum PassphraseOperation {
    Unlock,
    Encrypt,
    EncryptConfirm,
}

/// The progress display.
#[derive(Debug)]
pub struct ProgressState {
    pub show_dialog: bool,
    pub message: String,
    pub disk_name: String,
    pub disk_model: String,
    pub spinner_index: usize,
}

/// The frames of the spinner.
pub const SPINNER_FRAMES: usize = 10;

impl Default for ProgressState {
    fn default() -> (p: ProgressState)
        ensures
            !p.show_dialog,
            p.message@.len() == 0,
            p.disk_name@.len() == 0,
            p.disk_model@.len() == 0,
            p.spinner_index == 0,
    {
        ProgressState {
            show_dialog: false,
            message: String::new(),
            disk_name: String::new(),
            disk_model: String::new(),
            spinner_index: 0,
        }
    }
}

impl ProgressState {
    /// Shows the display with the given text.
    pub fn start(&mut self, message: String)
        ensures
            *final(self) == (ProgressState {
                show_dialog: true,
                message,
                spinner_index: 0,
                ..*old(self)
            }),
    {
        self.show_dialog = true;
        self.message = message;
        self.spinner_index = 0;
    }

    /// Hides the display and forgets what it showed.
    pub fn end(&mut self)
        ensures
            !final(self).show_dialog,
            final(self).message@.len() == 0,
            final(self).disk_name@.len() == 0,
            final(self).disk_model@.len() == 0,
            final(self).spinner_index == old(self).spinner_index,
    {
        self.show_dialog = false;
        self.message = String::new();
        self.disk_name = String::new();
        self.disk_model = String::new();
    }

    /// Moves the spinner on by one frame while the display shows.
    pub fn tick(&mut self)
        ensures
            old(self).show_dialog ==> final(self).spinner_index as int == (old(
                self,
            ).spinner_index as int + 1) % 10,
            !old(self).show_dialog ==> final(self).spinner_index == old(self).spinner_index,
            *final(self) == (ProgressState {
                spinner_index: final(self).spinner_index,
                ..*old(self)
            }),
    {
        if self.show_dialog {
            self.spinner_index = (self.spinner_index % SPINNER_FRAMES + 1) % SPINNER_FRAMES;
        }
    }
}

/// The row that is selected after the list was read again: the same row
/// where it still exists, the first row where it does not, none where the
/// list is empty.
pub open spec fn reselected(selected: Option<usize>, len: usize) -> Option<usize> {
    match selected {
        Some(i) => if i < len {
            Some(i)
        } else if len > 0 {
            Some(0usize)
        } else {
            None
        },
        None => None,
    }
}

/// Keeps a selection valid after the list was read again.
pub fn reselect(selected: Option<usize>, len: usize) -> (r: Option<usize>)
    ensures
        r == reselected(selected, len),
{
    match selected {
        Some(i) => {
            if i < len {
                Some(i)
            } else if len > 0 {
                Some(0)
            } else {
                None
            }
        },
        None => None,
    }
}

/// The row below the selected one: the first row where none is selected,
/// the same row at the end of the list. The list must not be empty.
pub fn row_below(selected: Option<usize>, len: usize) -> (r: usize)
    requires
        len > 0,
    ensures
        (selected is None || selected->0 < len) ==> r < len,
        r == match selected {
            Some(i) => if i < len - 1 {
                (i + 1) as usize
            } else {
                i
            },
            None => 0usize,
        },
{
    match selected {
        Some(i) => {
            if i < len - 1 {
                i + 1
            } else {
                i
            }
        },
        None => 0,
    }
}

/// The row above the selected one: the first row where none is selected or
/// the first is.
pub fn row_above(selected: Option<usize>) -> (r: usize)
    ensures
        r == match selected {
            Some(i) => if i > 0 {
                (i - 1) as usize
            } else {
                0usize
            },
            None => 0usize,
        },
{
    match selected {
        Some(i) => {
            if i > 0 {
                i - 1
            } else {
                0
            }
        },
        None => 0,
    }
}

} // verus!
