//! The binary Netpbm format for color images, `P6`: a short text header, then
//! the pixels row by row, three bytes each.

use vstd::prelude::*;
use vstd::string::*;
use vstd::utf8::is_ascii_chars;

verus! {

/// A pixel ready for output: red, green, blue.
pub type Pixel = [u8; 3];

/// An image by columns: `image[x][y]` is the pixel in column `x` of row `y`.
pub type Image = Vec<Vec<Pixel>>;

/// The character of a decimal digit.
pub open spec fn digit(d: nat) -> char {
    if d == 0 {
        '0'
    } else if d == 1 {
        '1'
    } else if d == 2 {
        '2'
    } else if d == 3 {
        '3'
    } else if d == 4 {
        '4'
    } else if d == 5 {
        '5'
    } else if d == 6 {
        '6'
    } else if d == 7 {
        '7'
    } else if d == 8 {
        '8'
    } else {
        '9'
    }
}

/// `n` in decimal, without sign or leading zeros.
pub open spec fn decimal(n: nat) -> Seq<char>
    decreases n,
{
    if n < 10 {
        seq![digit(n)]
    } else {
        decimal(n / 10).push(digit(n % 10))
    }
}

/// The header of an image of the given size with channels up to 255: the
/// lines `P6`, `width height` and `255`.
pub open spec fn spec_ppm_header(width: nat, height: nat) -> Seq<char> {
    seq!['P', '6', '\n'] + decimal(width) + seq![' '] + decimal(height) + seq![
        '\n',
        '2',
        '5',
        '5',
        '\n',
    ]
}

fn digit_str(d: usize) -> (s: &'static str)
    requires
        d < 10,
    ensures
        s@ == seq![digit(d as nat)],
{
    proof {
        reveal_strlit("0");
        reveal_strlit("1");
        reveal_strlit("2");
        reveal_strlit("3");
        reveal_strlit("4");
        reveal_strlit("5");
        reveal_strlit("6");
        reveal_strlit("7");
        reveal_strlit("8");
        reveal_strlit("9");
    }
    let s = if d == 0 {
        "0"
    } else if d == 1 {
        "1"
    } else if d == 2 {
        "2"
    } else if d == 3 {
        "3"
    } else if d == 4 {
        "4"
    } else if d == 5 {
        "5"
    } else if d == 6 {
        "6"
    } else if d == 7 {
        "7"
    } else if d == 8 {
        "8"
    } else {
        "9"
    };
    assert(s@ =~= seq![digit(d as nat)]);
    s
}

fn append_decimal(text: &mut String, n: usize)
    ensures
        final(text)@ == old(text)@ + decimal(n as nat),
    decreases n,
{
    if n >= 10 {
        append_decimal(text, n / 10);
    }
    text.append(digit_str(n % 10));
    assert(text@ =~= old(text)@ + decimal(n as nat));
}

/// The text that opens the file of an image of the given size.
pub fn get_ppm_header(width: usize, height: usize) -> (header: String)
    ensures
        header@ == spec_ppm_header(width as nat, height as nat),
{
    proof {
        reveal_strlit("P6\n");
        reveal_strlit(" ");
        reveal_strlit("\n255\n");
    }
    let mut header = String::from_str("P6\n");
    append_decimal(&mut header, width);
    header.append(" ");
    append_decimal(&mut header, height);
    header.append("\n255\n");
    assert(header@ =~= spec_ppm_header(width as nat, height as nat));
    header
}

/// The header as the bytes of the file: every character is ASCII and stands
/// for one byte.
pub open spec fn spec_header_bytes(width: nat, height: nat) -> Seq<u8> {
    Seq::new(
        spec_ppm_header(width, height).len(),
        |i: int| spec_ppm_header(width, height)[i] as u8,
    )
}

/// An image that can be written: it has a column, and no column is shorter
/// than the first, whose length is the image's height.
pub open spec fn writable(image: Seq<Vec<Pixel>>) -> bool {
    &&& image.len() > 0
    &&& forall|x: int| 0 <= x < image.len() ==> (#[trigger] image[x]).len() >= image[0].len()
}

/// The bytes of row `y`, from column 0 up to column `columns`.
pub open spec fn row_bytes(image: Seq<Vec<Pixel>>, y: int, columns: int) -> Seq<u8>
    decreases columns,
{
    if columns <= 0 {
        Seq::empty()
    } else {
        row_bytes(image, y, columns - 1) + image[columns - 1]@[y]@
    }
}

/// The bytes of the rows from row 0 up to row `rows`, each row whole.
pub open spec fn body_bytes(image: Seq<Vec<Pixel>>, rows: int) -> Seq<u8>
    decreases rows,
{
    if rows <= 0 {
        Seq::empty()
    } else {
        body_bytes(image, rows - 1) + row_bytes(image, rows - 1, image.len() as int)
    }
}

/// The whole file of an image: the header, then every row from the top.
pub open spec fn spec_ppm_bytes(image: Seq<Vec<Pixel>>) -> Seq<u8> {
    spec_header_bytes(image.len(), image[0].len() as nat) + body_bytes(
        image,
        image[0].len() as int,
    )
}

/// The number that the character of a digit stands for.
pub open spec fn digit_value(c: char) -> nat {
    if c == '1' {
        1
    } else if c == '2' {
        2
    } else if c == '3' {
        3
    } else if c == '4' {
        4
    } else if c == '5' {
        5
    } else if c == '6' {
        6
    } else if c == '7' {
        7
    } else if c == '8' {
        8
    } else if c == '9' {
        9
    } else {
        0
    }
}

/// The number that a row of digits stands for, read in base ten.
pub open spec fn decimal_value(digits: Seq<char>) -> nat
    decreases digits.len(),
{
    if digits.len() == 0 {
        0
    } else {
        decimal_value(digits.drop_last()) * 10 + digit_value(digits.last())
    }
}

/// What [`decimal`] writes reads back as the number written: it is the
/// number's own digits, at least one, and starts with a zero for zero only.
pub proof fn law_decimal_reads_back(n: nat)
    ensures
        decimal(n).len() > 0,
        decimal_value(decimal(n)) == n,
        n > 0 ==> decimal(n)[0] != '0',
        forall|i: int| 0 <= i < decimal(n).len() ==> (#[trigger] decimal(n)[i]) == digit(
            digit_value(decimal(n)[i]),
        ),
    decreases n,
{
    if n < 10 {
        assert(decimal(n).drop_last() =~= Seq::<char>::empty());
        assert(decimal_value(decimal(n).drop_last()) == 0);
    } else {
        law_decimal_reads_back(n / 10);
        assert(decimal(n).drop_last() =~= decimal(n / 10));
        assert(decimal(n)[0] == decimal(n / 10)[0]);
        assert forall|i: int| 0 <= i < decimal(n).len() implies (#[trigger] decimal(n)[i])
            == digit(digit_value(decimal(n)[i])) by {
            if i < decimal(n).len() - 1 {
                assert(decimal(n)[i] == decimal(n / 10)[i]);
            }
        }
    }
}

/// A row of an image takes three bytes a column.
proof fn lemma_row_length(image: Seq<Vec<Pixel>>, y: int, columns: int)
    requires
        0 <= columns,
    ensures
        row_bytes(image, y, columns).len() == 3 * columns,
    decreases columns,
{
    if columns > 0 {
        lemma_row_length(image, y, columns - 1);
    }
}

/// In a row the columns follow each other from the left: the bytes of
/// column `x` stand at `3 x`.
proof fn lemma_row_is_by_column(image: Seq<Vec<Pixel>>, y: int, columns: int, x: int, c: int)
    requires
        0 <= x < columns,
        0 <= c < 3,
    ensures
        row_bytes(image, y, columns).len() == 3 * columns,
        row_bytes(image, y, columns)[3 * x + c] == image[x]@[y]@[c],
    decreases columns,
{
    lemma_row_length(image, y, columns);
    lemma_row_length(image, y, columns - 1);
    if x < columns - 1 {
        lemma_row_is_by_column(image, y, columns - 1, x, c);
    }
}

/// The pixels of an image are written row by row from the top and in a row
/// from the left, three bytes each: the bytes after the header are three
/// times as many as the image has pixels, and channel `c` of the pixel in
/// column `x` of row `y` is the byte at `3 (y width + x) + c`.
pub proof fn law_body_is_row_major(image: Seq<Vec<Pixel>>, rows: int, x: int, y: int, c: int)
    requires
        0 <= y < rows,
        0 <= x < image.len(),
        0 <= c < 3,
    ensures
        body_bytes(image, rows).len() == 3 * (rows * image.len()),
        0 <= 3 * (y * image.len() + x) + c < body_bytes(image, rows).len(),
        body_bytes(image, rows)[3 * (y * image.len() + x) + c] == image[x]@[y]@[c],
    decreases rows,
{
    let width = image.len() as int;
    lemma_body_length(image, rows);
    lemma_body_length(image, rows - 1);
    lemma_row_length(image, rows - 1, width);
    assert(rows * width == (rows - 1) * width + width) by (nonlinear_arith);
    assert(y * width + x < rows * width) by (nonlinear_arith)
        requires
            0 <= y < rows,
            0 <= x < width,
    ;
    assert(0 <= y * width) by (nonlinear_arith)
        requires
            0 <= y,
            0 <= width,
    ;
    if y < rows - 1 {
        law_body_is_row_major(image, rows - 1, x, y, c);
    } else {
        lemma_row_is_by_column(image, y, width, x, c);
        assert(3 * (y * width + x) + c == 3 * ((rows - 1) * width) + (3 * x + c));
    }
}

/// An image takes three bytes a pixel.
proof fn lemma_body_length(image: Seq<Vec<Pixel>>, rows: int)
    requires
        0 <= rows,
    ensures
        body_bytes(image, rows).len() == 3 * (rows * image.len()),
    decreases rows,
{
    if rows > 0 {
        lemma_body_length(image, rows - 1);
        lemma_row_length(image, rows - 1, image.len() as int);
        assert(rows * image.len() == (rows - 1) * image.len() + image.len()) by (nonlinear_arith);
    } else {
        assert(rows * image.len() == 0) by (nonlinear_arith)
            requires
                rows == 0,
        ;
    }
}

proof fn lemma_decimal_is_ascii(n: nat)
    ensures
        is_ascii_chars(decimal(n)),
    decreases n,
{
    if n >= 10 {
        lemma_decimal_is_ascii(n / 10);
    }
}

proof fn lemma_header_is_ascii(width: nat, height: nat)
    ensures
        is_ascii_chars(spec_ppm_header(width, height)),
{
    lemma_decimal_is_ascii(width);
    lemma_decimal_is_ascii(height);
}

/// The file of an image in the binary `P6` format: [`get_ppm_header`] for
/// its size, then the pixels row by row from the top, and in a row column by
/// column from the left, three bytes each.
pub fn ppm_bytes(image: &Image) -> (bytes: Vec<u8>)
    requires
        writable(image@),
    ensures
        bytes@ == spec_ppm_bytes(image@),
{
    let width = image.len();
    let height = image[0].len();
    let header = get_ppm_header(width, height);
    let text = header.as_str();
    proof {
        lemma_header_is_ascii(width as nat, height as nat);
        is_ascii_spec_bytes(text);
    }
    let mut bytes = text.as_bytes_vec();
    assert(bytes@ =~= spec_header_bytes(width as nat, height as nat));
    let ghost head = bytes@;
    let mut y: usize = 0;
    while y < height
        invariant
            writable(image@),
            width == image.len(),
            height == image[0].len(),
            y <= height,
            bytes@ == head + body_bytes(image@, y as int),
        decreases height - y,
    {
        let ghost above = bytes@;
        let mut x: usize = 0;
        while x < width
            invariant
                writable(image@),
                width == image.len(),
                height == image[0].len(),
                y < height,
                x <= width,
                bytes@ == above + row_bytes(image@, y as int, x as int),
            decreases width - x,
        {
            let pixel = image[x][y];
            bytes.push(pixel[0]);
            bytes.push(pixel[1]);
            bytes.push(pixel[2]);
            assert(bytes@ =~= above + row_bytes(image@, y as int, x as int + 1)) by {
                assert(pixel@ =~= seq![pixel[0], pixel[1], pixel[2]]);
            }
            x += 1;
        }
        assert(bytes@ =~= head + body_bytes(image@, y as int + 1));
        y += 1;
    }
    bytes
}

} // verus!
