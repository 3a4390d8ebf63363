//! How the entries of a directory are laid out in a table: one row for each
//! entry, under a header row.

use vstd::prelude::*;
use vstd::string::StringExecFns;
use crate::models::FileData;

verus! {

/// The character of a decimal digit.
pub open spec fn digit(d: int) -> char {
    if d == 0 {
        '0'
    } else if d == 1 {
        '1'
    } else if d == 2 {
        '2'
    } else if d == 3 {
        '3'
    } else if d == 4 {
        '4'
    } else if d == 5 {
        '5'
    } else if d == 6 {
        '6'
    } else if d == 7 {
        '7'
    } else if d == 8 {
        '8'
    } else {
        '9'
    }
}

/// A number in decimal, without leading zeros.
pub open spec fn decimal(n: nat) -> Seq<char>
    decreases n,
{
    if n < 10 {
        seq![digit(n as int)]
    } else {
        decimal(n / 10) + seq![digit((n % 10) as int)]
    }
}

/// Numbers in decimal, separated by a comma and a space.
pub open spec fn decimal_list(numbers: Seq<u64>) -> Seq<char>
    decreases numbers.len(),
{
    if numbers.len() == 0 {
        Seq::empty()
    } else if numbers.len() == 1 {
        decimal(numbers[0] as nat)
    } else {
        decimal_list(numbers.drop_last()) + ", "@ + decimal(numbers.last() as nat)
    }
}

/// How the blocks of an entry are shown: `None` for an entry without a
/// list of blocks, else the block numbers in square brackets.
pub open spec fn blocks_text(blocks: Option<Vec<u64>>) -> Seq<char> {
    match blocks {
        None => "None"@,
        Some(numbers) => "["@ + decimal_list(numbers@) + "]"@,
    }
}

/// One row of the table.
#[derive(Debug, PartialEq, Eq)]
pub struct FileRow {
    pub id: String,
    pub name: String,
    pub kind: String,
    pub size: String,
    pub blocks: String,
    pub timestamp: String,
    /// Whether the name is set off in colour, as that of a directory is.
    pub highlighted: bool,
}

/// A `FileRow` as a mathematical value.
pub struct FileRowModel {
    pub id: Seq<char>,
    pub name: Seq<char>,
    pub kind: Seq<char>,
    pub size: Seq<char>,
    pub blocks: Seq<char>,
    pub timestamp: Seq<char>,
    pub highlighted: bool,
}

impl View for FileRow {
    type V = FileRowModel;

    open spec fn view(&self) -> FileRowModel {
        FileRowModel {
            id: self.id@,
            name: self.name@,
            kind: self.kind@,
            size: self.size@,
            blocks: self.blocks@,
            timestamp: self.timestamp@,
            highlighted: self.highlighted,
        }
    }
}

/// The header row.
pub open spec fn header_model() -> FileRowModel {
    FileRowModel {
        id: "ID"@,
        name: "Name"@,
        kind: "Type"@,
        size: "Size"@,
        blocks: "Blocks"@,
        timestamp: "Timestamp"@,
        highlighted: false,
    }
}

/// The row of an entry.
pub open spec fn row_model(file: FileData) -> FileRowModel {
    FileRowModel {
        id: decimal(file.id as nat),
        name: file.name@,
        kind: file.kind_text(),
        size: decimal(file.size as nat),
        blocks: blocks_text(file.blocks),
        timestamp: file.timestamp@,
        highlighted: file.is_dir,
    }
}

/// The text of one decimal digit.
fn digit_text(d: u64) -> (text: &'static str)
    requires
        d < 10,
    ensures
        text@ == seq![digit(d as int)],
{
    proof {
        reveal_strlit("0");
        reveal_strlit("1");
        reveal_strlit("2");
        reveal_strlit("3");
        reveal_strlit("4");
        reveal_strlit("5");
        reveal_strlit("6");
        reveal_strlit("7");
        reveal_strlit("8");
        reveal_strlit("9");
    }
    let text = if d == 0 {
        "0"
    } else if d == 1 {
        "1"
    } else if d == 2 {
        "2"
    } else if d == 3 {
        "3"
    } else if d == 4 {
        "4"
    } else if d == 5 {
        "5"
    } else if d == 6 {
        "6"
    } else if d == 7 {
        "7"
    } else if d == 8 {
        "8"
    } else {
        "9"
    };
    assert(text@ =~= seq![digit(d as int)]);
    text
}

/// Writes a number in decimal.
pub fn decimal_string(n: u64) -> (text: String)
    ensures
        text@ == decimal(n as nat),
    decreases n,
{
    if n < 10 {
        String::from_str(digit_text(n))
    } else {
        let mut text = decimal_string(n / 10);
        text.append(digit_text(n % 10));
        text
    }
}

/// Writes the blocks of an entry.
pub fn blocks_string(blocks: &Option<Vec<u64>>) -> (text: String)
    ensures
        text@ == blocks_text(*blocks),
{
    match blocks {
        None => String::from_str("None"),
        Some(numbers) => {
            let mut text = String::from_str("[");
            let mut i: usize = 0;
            while i < numbers.len()
                invariant
                    i <= numbers.len(),
                    text@ == "["@ + decimal_list(numbers@.take(i as int)),
                decreases numbers.len() - i,
            {
                if i > 0 {
                    text.append(", ");
                }
                let number = decimal_string(numbers[i]);
                text.append(number.as_str());
                proof {
                    let before = numbers@.take(i as int);
                    let after = numbers@.take(i + 1);
                    assert(after.drop_last() =~= before);
                    assert(after.last() == numbers@[i as int]);
                    if i == 0 {
                        assert(decimal_list(before) =~= Seq::<char>::empty());
                    }
                    assert(text@ =~= "["@ + decimal_list(after));
                }
                i = i + 1;
            }
            assert(numbers@.take(i as int) =~= numbers@);
            text.append("]");
            text
        },
    }
}

impl FileRow {
    /// The header row: the titles of the six columns.
    pub fn header() -> (row: FileRow)
        ensures
            row@ == header_model(),
    {
        FileRow {
            id: String::from_str("ID"),
            name: String::from_str("Name"),
            kind: String::from_str("Type"),
            size: String::from_str("Size"),
            blocks: String::from_str("Blocks"),
            timestamp: String::from_str("Timestamp"),
            highlighted: false,
        }
    }

    /// The row of `file`: its number, name, kind, size in bytes, blocks and
    /// time stamp. The name of a directory is set off in colour.
    pub fn of(file: &FileData) -> (row: FileRow)
        ensures
            row@ == row_model(*file),
    {
        FileRow {
            id: decimal_string(file.id),
            name: file.name.clone(),
            kind: String::from_str(file.kind_label()),
            size: decimal_string(file.size),
            blocks: blocks_string(&file.blocks),
            timestamp: file.timestamp.clone(),
            highlighted: file.is_dir,
        }
    }
}

/// The rows of a listing: the header row, then one row for each entry, in
/// order.
pub fn listing(files: &Vec<FileData>) -> (rows: Vec<FileRow>)
    ensures
        rows@.len() == files@.len() + 1,
        rows@[0]@ == header_model(),
        forall|i: int| 1 <= i < rows@.len() ==> (#[trigger] rows@[i])@ == row_model(files@[i - 1]),
{
    let mut rows: Vec<FileRow> = Vec::new();
    rows.push(FileRow::header());
    let mut i: usize = 0;
    while i < files.len()
        invariant
            i <= files.len(),
            rows@.len() == i + 1,
            rows@[0]@ == header_model(),
            forall|j: int| 1 <= j <= i ==> (#[trigger] rows@[j])@ == row_model(files@[j - 1]),
        decreases files.len() - i,
    {
        rows.push(FileRow::of(&files[i]));
        i = i + 1;
    }
    rows
}

} // verus!
