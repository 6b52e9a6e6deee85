//! The options of the program, as given on the command line.

use vstd::prelude::*;
use vstd::string::*;
use crate::numerals::{number_value, parse_decimal, parse_hex};
use crate::player::Player;

verus! {

/// A colour with its opacity.
#[derive(Clone, Copy, PartialEq, Eq, Debug, Structural)]
pub struct Color {
    pub r: u8,
    pub g: u8,
    pub b: u8,
    pub a: u8,
}

impl Color {
    /// The fully opaque colour of the given red, green and blue parts.
    pub open spec fn opaque(r: u8, g: u8, b: u8) -> Color {
        Color { r, g, b, a: 255 }
    }

    /// The colour packed in a number: red in the lowest byte, green in the
    /// next, blue in the third. The highest byte is not looked at.
    pub open spec fn unpacked(packed: u32) -> Color {
        Color::opaque(
            (packed % 256) as u8,
            ((packed / 256) % 256) as u8,
            ((packed / 65536) % 256) as u8,
        )
    }

    /// Returns the fully opaque colour of the given parts.
    pub fn rgb(r: u8, g: u8, b: u8) -> (c: Color)
        ensures
            c == Color::opaque(r, g, b),
    {
        Color { r, g, b, a: 255 }
    }

    /// Returns the colour packed in a number.
    pub fn from_packed(packed: u32) -> (c: Color)
        ensures
            c == Color::unpacked(packed),
    {
        Color::rgb(
            (packed % 256) as u8,
            ((packed / 256) % 256) as u8,
            ((packed / 65536) % 256) as u8,
        )
    }
}

/// An option that takes a value.
#[derive(Clone, Copy, PartialEq, Eq, Debug, Structural)]
pub enum Key {
    Title,
    Width,
    Height,
    Scale,
    ButtonSep,
    ButtonSize,
    XColor,
    OColor,
}

/// The option that an argument announces, if it is the flag of one.
pub open spec fn key_of(arg: Seq<char>) -> Option<Key> {
    if arg == "--title"@ {
        Some(Key::Title)
    } else if arg == "--width"@ {
        Some(Key::Width)
    } else if arg == "--height"@ {
        Some(Key::Height)
    } else if arg == "--scale"@ {
        Some(Key::Scale)
    } else if arg == "--button_sep"@ {
        Some(Key::ButtonSep)
    } else if arg == "--button_size"@ {
        Some(Key::ButtonSize)
    } else if arg == "--x_color"@ {
        Some(Key::XColor)
    } else if arg == "--o_color"@ {
        Some(Key::OColor)
    } else {
        None
    }
}

/// Whether an argument has the form of a flag: it starts with two hyphens.
pub open spec fn is_flag(arg: Seq<char>) -> bool {
    arg.len() >= 2 && arg[0] == '-' && arg[1] == '-'
}

/// The number that the value of an option stands for, where the option
/// takes a number: colours are read in hexadecimal, all else in decimal.
pub open spec fn number_of(key: Key, text: Seq<char>) -> Option<u32> {
    match key {
        Key::XColor | Key::OColor => number_value(text, 16),
        _ => number_value(text, 10),
    }
}

/// What a failure to read the value of an option says.
pub open spec fn failure(key: Key) -> Seq<char> {
    match key {
        Key::Title => "Failed to parse title arg"@,
        Key::Width => "Failed to parse width arg"@,
        Key::Height => "Failed to parse height arg"@,
        Key::Scale => "Failed to parse scale arg"@,
        Key::ButtonSep => "Failed to parse button_sep arg"@,
        Key::ButtonSize => "Failed to parse button_size arg"@,
        Key::XColor => "Failed to parse x_color arg"@,
        Key::OColor => "Failed to parse o_color arg"@,
    }
}

/// The options as plain values: the model of `ProgramOptions`.
pub struct OptionsView {
    pub title: Seq<char>,
    pub size: (u32, u32),
    pub scale: Seq<char>,
    pub button_sep: u32,
    pub button_size: u32,
    pub x_color: Color,
    pub o_color: Color,
    pub opponent_ai: bool,
}

impl OptionsView {
    /// The options of a program started without arguments.
    pub open spec fn initial() -> OptionsView {
        OptionsView {
            title: "TicTacToe"@,
            size: (3, 3),
            scale: "1.0"@,
            button_sep: 10,
            button_size: 200,
            x_color: Color::opaque(50, 200, 150),
            o_color: Color::opaque(255, 50, 50),
            opponent_ai: false,
        }
    }

    /// The options after `key` was given the value `text`, which reads as
    /// `number`: the title and the scale take the text as it is, every
    /// other option needs the number and fails without it.
    pub open spec fn assigned(self, key: Key, text: Seq<char>, number: Option<u32>) -> Result<
        OptionsView,
        Seq<char>,
    > {
        match key {
            Key::Title => Ok(OptionsView { title: text, ..self }),
            Key::Scale => Ok(OptionsView { scale: text, ..self }),
            _ => match number {
                None => Err(failure(key)),
                Some(n) => Ok(
                    match key {
                        Key::Width => OptionsView { size: (n, self.size.1), ..self },
                        Key::Height => OptionsView { size: (self.size.0, n), ..self },
                        Key::ButtonSep => OptionsView { button_sep: n, ..self },
                        Key::ButtonSize => OptionsView { button_size: n, ..self },
                        Key::XColor => OptionsView { x_color: Color::unpacked(n), ..self },
                        _ => OptionsView { o_color: Color::unpacked(n), ..self },
                    },
                ),
            },
        }
    }

    /// The options and the awaited value after one more argument. An
    /// argument that is awaited is the value of its option. Otherwise
    /// `--help` ends the reading, `--ai` lets the computer play, the flag
    /// of an option makes its value awaited, and anything else is refused:
    /// as unknown where it has the form of a flag, as invalid where not.
    pub open spec fn fed(self, pending: Option<Key>, arg: Seq<char>) -> Result<
        (OptionsView, Option<Key>),
        Seq<char>,
    > {
        match pending {
            Some(key) => match self.assigned(key, arg, number_of(key, arg)) {
                Ok(next) => Ok((next, None)),
                Err(message) => Err(message),
            },
            None => if arg == "--help"@ {
                Err("Help called"@)
            } else if arg == "--ai"@ {
                Ok((OptionsView { opponent_ai: true, ..self }, None))
            } else if key_of(arg) is Some {
                Ok((self, key_of(arg)))
            } else if is_flag(arg) {
                Err("Unknown argument"@)
            } else {
                Err("Invalid argument"@)
            },
        }
    }

    /// The options after all of `args`, read from the left: the first
    /// refusal ends the reading, and a flag at the very end, whose value
    /// never comes, is passed over.
    pub open spec fn fed_all(self, pending: Option<Key>, args: Seq<Seq<char>>) -> Result<
        OptionsView,
        Seq<char>,
    >
        decreases args.len(),
    {
        if args.len() == 0 {
            Ok(self)
        } else {
            match self.fed(pending, args[0]) {
                Ok((next, awaited)) => next.fed_all(awaited, args.drop_first()),
                Err(message) => Err(message),
            }
        }
    }
}

/// The characters of each of the arguments.
pub open spec fn texts(args: Seq<String>) -> Seq<Seq<char>> {
    Seq::new(args.len(), |i: int| args[i]@)
}

/// The options of the program.
#[derive(Debug)]
pub struct ProgramOptions {
    pub title: String,
    pub size: (u32, u32),
    /// The scale factor of the window, as it was written.
    pub scale: String,
    pub button_sep: u32,
    pub button_size: u32,
    pub x_color: Color,
    pub o_color: Color,
    pub opponent_ai: bool,
}

impl View for ProgramOptions {
    type V = OptionsView;

    open spec fn view(&self) -> OptionsView {
        OptionsView {
            title: self.title@,
            size: self.size,
            scale: self.scale@,
            button_sep: self.button_sep,
            button_size: self.button_size,
            x_color: self.x_color,
            o_color: self.o_color,
            opponent_ai: self.opponent_ai,
        }
    }
}

/// Tests whether a text is, character by character, the given one.
fn same(text: &String, other: &str) -> (equal: bool)
    ensures
        equal == (text@ == other@),
{
    let other_text = other.to_owned();
    *text == other_text
}

/// Finds the option that an argument announces, if it is the flag of one.
pub fn flag_key(arg: &String) -> (key: Option<Key>)
    ensures
        key == key_of(arg@),
{
    if same(arg, "--title") {
        Some(Key::Title)
    } else if same(arg, "--width") {
        Some(Key::Width)
    } else if same(arg, "--height") {
        Some(Key::Height)
    } else if same(arg, "--scale") {
        Some(Key::Scale)
    } else if same(arg, "--button_sep") {
        Some(Key::ButtonSep)
    } else if same(arg, "--button_size") {
        Some(Key::ButtonSize)
    } else if same(arg, "--x_color") {
        Some(Key::XColor)
    } else if same(arg, "--o_color") {
        Some(Key::OColor)
    } else {
        None
    }
}

/// Tests whether an argument starts with two hyphens.
pub fn has_flag_form(arg: &String) -> (flag: bool)
    ensures
        flag == is_flag(arg@),
{
    let text = arg.as_str();
    text.unicode_len() >= 2 && text.get_char(0) == '-' && text.get_char(1) == '-'
}

/// Returns what a failure to read the value of `key` says.
pub fn failure_message(key: Key) -> (message: String)
    ensures
        message@ == failure(key),
{
    match key {
        Key::Title => "Failed to parse title arg".to_owned(),
        Key::Width => "Failed to parse width arg".to_owned(),
        Key::Height => "Failed to parse height arg".to_owned(),
        Key::Scale => "Failed to parse scale arg".to_owned(),
        Key::ButtonSep => "Failed to parse button_sep arg".to_owned(),
        Key::ButtonSize => "Failed to parse button_size arg".to_owned(),
        Key::XColor => "Failed to parse x_color arg".to_owned(),
        Key::OColor => "Failed to parse o_color arg".to_owned(),
    }
}

impl ProgramOptions {
    /// The options of a program started without arguments.
    pub fn new() -> (options: Self)
        ensures
            options@ == OptionsView::initial(),
    {
        ProgramOptions {
            title: "TicTacToe".to_owned(),
            size: (3, 3),
            scale: "1.0".to_owned(),
            button_sep: 10,
            button_size: 200,
            x_color: Color::rgb(50, 200, 150),
            o_color: Color::rgb(255, 50, 50),
            opponent_ai: false,
        }
    }

    /// Gives `key` the value `text`, which was read as `number`. The title
    /// and the scale take the text as it is. Every other option takes the
    /// number; without one the options stay as they are and the failure
    /// names the option.
    pub fn assign(&mut self, key: Key, text: &String, number: Option<u32>) -> (done: Result<
        (),
        String,
    >)
        ensures
            match old(self)@.assigned(key, text@, number) {
                Ok(next) => done is Ok && final(self)@ == next,
                Err(message) => done is Err && done->Err_0@ == message
                    && final(self)@ == old(self)@,
            },
    {
        match key {
            Key::Title => {
                self.title = text.clone();
                Ok(())
            },
            Key::Scale => {
                self.scale = text.clone();
                Ok(())
            },
            _ => match number {
                None => Err(failure_message(key)),
                Some(n) => {
                    match key {
                        Key::Width => {
                            self.size.0 = n;
                        },
                        Key::Height => {
                            self.size.1 = n;
                        },
                        Key::ButtonSep => {
                            self.button_sep = n;
                        },
                        Key::ButtonSize => {
                            self.button_size = n;
                        },
                        Key::XColor => {
                            self.x_color = Color::from_packed(n);
                        },
                        _ => {
                            self.o_color = Color::from_packed(n);
                        },
                    }
                    Ok(())
                },
            },
        }
    }

    /// Reads the number that the value of `key` stands for: in hexadecimal
    /// for a colour, in decimal otherwise.
    pub fn read_number(key: Key, text: &String) -> (number: Option<u32>)
        ensures
            number == number_of(key, text@),
    {
        match key {
            Key::XColor | Key::OColor => parse_hex(text.as_str()),
            _ => parse_decimal(text.as_str()),
        }
    }

    /// Takes in one more argument, where `pending` is the option whose
    /// value is awaited, and returns the option whose value is awaited
    /// next. On a refusal the options stay as they are.
    pub fn feed(&mut self, pending: Option<Key>, arg: &String) -> (next: Result<
        Option<Key>,
        String,
    >)
        ensures
            match old(self)@.fed(pending, arg@) {
                Ok((options, awaited)) => next == Ok::<Option<Key>, String>(awaited)
                    && final(self)@ == options,
                Err(message) => next is Err && next->Err_0@ == message
                    && final(self)@ == old(self)@,
            },
    {
        match pending {
            Some(key) => {
                let number = Self::read_number(key, arg);
                match self.assign(key, arg, number) {
                    Ok(()) => Ok(None),
                    Err(message) => Err(message),
                }
            },
            None => {
                if same(arg, "--help") {
                    Err("Help called".to_owned())
                } else if same(arg, "--ai") {
                    self.opponent_ai = true;
                    Ok(None)
                } else {
                    let key = flag_key(arg);
                    if key.is_some() {
                        Ok(key)
                    } else if has_flag_form(arg) {
                        Err("Unknown argument".to_owned())
                    } else {
                        Err("Invalid argument".to_owned())
                    }
                }
            },
        }
    }

    /// Reads the options from the arguments of the program, the program's
    /// own name left out. The arguments are taken from the left; the first
    /// one that is refused ends the reading with its message.
    pub fn get(args: &Vec<String>) -> (options: Result<Self, String>)
        ensures
            match OptionsView::initial().fed_all(None, texts(args@)) {
                Ok(expected) => options is Ok && options->Ok_0@ == expected,
                Err(message) => options is Err && options->Err_0@ == message,
            },
    {
        let mut out = Self::new();
        let mut pending: Option<Key> = None;
        let mut k: usize = 0;
        assert(texts(args@).skip(0) =~= texts(args@));
        while k < args.len()
            invariant
                k <= args@.len(),
                OptionsView::initial().fed_all(None, texts(args@)) == out@.fed_all(
                    pending,
                    texts(args@).skip(k as int),
                ),
            decreases args@.len() - k,
        {
            let ghost rest = texts(args@).skip(k as int);
            assert(rest.drop_first() =~= texts(args@).skip(k + 1));
            match out.feed(pending, &args[k]) {
                Ok(awaited) => {
                    pending = awaited;
                },
                Err(message) => {
                    return Err(message);
                },
            }
            k += 1;
        }
        Ok(out)
    }
}

/// The colour in which a cell is drawn: the colour chosen for the player
/// who holds it, and white for an empty cell.
pub fn get_color_from_cell(options: &ProgramOptions, cell: Option<Player>) -> (color: Color)
    ensures
        color == match cell {
            Some(Player::X) => options@.x_color,
            Some(Player::O) => options@.o_color,
            None => Color::opaque(255, 255, 255),
        },
{
    match cell {
        Some(Player::X) => options.x_color,
        Some(Player::O) => options.o_color,
        None => Color::rgb(255, 255, 255),
    }
}

} // verus!
