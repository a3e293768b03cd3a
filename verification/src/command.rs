//! The text commands that the device understands.
use vstd::prelude::*;
use crate::config::Configuration;
use crate::text::{as_str256, lemma_encode_concat, new256, push256, str_eq, text256};

verus! {

/// What an LED command asks for.
#[derive(Debug, PartialEq, Eq, Structural, Clone, Copy)]
pub enum LedCommandParameter {
    On,
    Off,
    Toggle,
}

/// A command that the device can carry out.
#[derive(Debug, PartialEq)]
pub enum PicoCommand {
    Led(LedCommandParameter),
    SetConfig(Configuration),
    Temperature,
    Reset,
    PrintState,
}

/// What a command line asks for, before the text of a configuration has been looked into.
pub enum Request {
    Led(LedCommandParameter),
    Config(Seq<char>),
    Temperature,
    Reset,
    PrintState,
}

/// The characters before the first space, and what follows that space if there is one.
pub open spec fn split_line(line: Seq<char>) -> (Seq<char>, Option<Seq<char>>) {
    match line.index_of_first(' ') {
        None => (line, None),
        Some(i) => (line.take(i), Some(line.skip(i + 1))),
    }
}

/// What a command line asks for, or the message that refuses it.
pub open spec fn request(line: Seq<char>) -> Result<Request, Seq<char>> {
    let (command, parameter) = split_line(line);
    if command == "LED"@ {
        match parameter {
            None => Err("LED command requires a parameter of ON or OFF"@),
            Some(p) => if p == "ON"@ {
                Ok(Request::Led(LedCommandParameter::On))
            } else if p == "OFF"@ {
                Ok(Request::Led(LedCommandParameter::Off))
            } else if p == "TOGGLE"@ {
                Ok(Request::Led(LedCommandParameter::Toggle))
            } else {
                Err("Invalid value for LED"@)
            },
        }
    } else if command == "TEMP"@ {
        if parameter is Some {
            Err("TEMP command does not take any parameters"@)
        } else {
            Ok(Request::Temperature)
        }
    } else if command == "RESET"@ {
        if parameter is Some {
            Err("RESET command does not take any parameters"@)
        } else {
            Ok(Request::Reset)
        }
    } else if command == "CONFIG"@ {
        match parameter {
            None => Err("CONFIG requires a Json parameter"@),
            Some(json) => Ok(Request::Config(json)),
        }
    } else if command == "PRINT"@ {
        if parameter is Some {
            Err("PRINT command does not take any parameters"@)
        } else {
            Ok(Request::PrintState)
        }
    } else {
        Err("Unknown command"@)
    }
}

/// The command that a request other than for a configuration stands for.
pub open spec fn plain_command(r: Request) -> PicoCommand
    recommends
        !(r is Config),
{
    match r {
        Request::Led(p) => PicoCommand::Led(p),
        Request::Temperature => PicoCommand::Temperature,
        Request::Reset => PicoCommand::Reset,
        _ => PicoCommand::PrintState,
    }
}

/// The text of a request.
pub open spec fn request_line(r: Request) -> Seq<char> {
    match r {
        Request::Led(LedCommandParameter::On) => "LED ON"@,
        Request::Led(LedCommandParameter::Off) => "LED OFF"@,
        Request::Led(LedCommandParameter::Toggle) => "LED TOGGLE"@,
        Request::Config(json) => "CONFIG "@ + json,
        Request::Temperature => "TEMP"@,
        Request::Reset => "RESET"@,
        Request::PrintState => "PRINT"@,
    }
}

/// Splits a line at its first space.
fn split_first<'a>(line: &'a str) -> (r: (&'a str, Option<&'a str>))
    ensures
        r.0@ == split_line(line@).0,
        match r.1 {
            None => split_line(line@).1 is None,
            Some(p) => split_line(line@).1 == Some(p@),
        },
{
    let n = line.unicode_len();
    let mut i: usize = 0;
    while i < n
        invariant
            i <= n,
            n == line@.len(),
            forall|j: int| 0 <= j < i ==> line@[j] != ' ',
        decreases n - i,
    {
        if line.get_char(i) == ' ' {
            proof {
                line@.index_of_first_ensures(' ');
            }
            return (line.substring_char(0, i), Some(line.substring_char(i + 1, n)));
        }
        i += 1;
    }
    proof {
        line@.index_of_first_ensures(' ');
    }
    (line, None)
}

/// The configuration that a JSON text describes, as `decode` reads it.
pub fn deserialize_config<D: FnOnce(&heapless::String<256>) -> Option<Configuration>>(
    input: &heapless::String<256>,
    decode: D,
) -> (r: Result<Configuration, &'static str>)
    requires
        decode.requires((input,)),
    ensures
        match r {
            Ok(c) => decode.ensures((input,), Some(c)),
            Err(e) => decode.ensures((input,), None) && e@ == "Unable to parse Json"@,
        },
{
    match decode(input) {
        Some(data) => Ok(data),
        None => Err("Unable to parse Json"),
    }
}

/// The command that a line of text stands for. A configuration comes as JSON, which `decode`
/// reads; it is handed all that follows the first space, and nothing else is handed to it.
pub fn parse_command<D: FnOnce(&heapless::String<256>) -> Option<Configuration>>(
    input: heapless::String<256>,
    decode: D,
) -> (r: Result<PicoCommand, &'static str>)
    requires
        forall|s: &heapless::String<256>| #[trigger] decode.requires((s,)),
    ensures
        match request(text256(input)) {
            Err(message) => r matches Err(e) && e@ == message,
            Ok(Request::Config(json)) => exists|s: heapless::String<256>| #[trigger]
                text256(s) == json && match r {
                    Ok(PicoCommand::SetConfig(c)) => decode.ensures((&s,), Some(c)),
                    Ok(_) => false,
                    Err(e) => decode.ensures((&s,), None) && e@ == "Unable to parse Json"@,
                },
            Ok(plain) => r == Ok::<PicoCommand, &'static str>(plain_command(plain)),
        },
{
    let line = as_str256(&input);
    let (command, parameter) = split_first(line);
    if str_eq(command, "LED") {
        match parameter {
            None => Err("LED command requires a parameter of ON or OFF"),
            Some(value) => if str_eq(value, "ON") {
                Ok(PicoCommand::Led(LedCommandParameter::On))
            } else if str_eq(value, "OFF") {
                Ok(PicoCommand::Led(LedCommandParameter::Off))
            } else if str_eq(value, "TOGGLE") {
                Ok(PicoCommand::Led(LedCommandParameter::Toggle))
            } else {
                Err("Invalid value for LED")
            },
        }
    } else if str_eq(command, "TEMP") {
        if parameter.is_some() {
            return Err("TEMP command does not take any parameters");
        }
        Ok(PicoCommand::Temperature)
    } else if str_eq(command, "RESET") {
        if parameter.is_some() {
            return Err("RESET command does not take any parameters");
        }
        Ok(PicoCommand::Reset)
    } else if str_eq(command, "CONFIG") {
        match parameter {
            None => Err("CONFIG requires a Json parameter"),
            Some(json) => {
                let mut config_string = new256();
                proof {
                    let i = line@.index_of_first(' ')->Some_0;
                    line@.index_of_first_ensures(' ');
                    assert(line@ =~= line@.take(i + 1) + json@);
                    lemma_encode_concat(line@.take(i + 1), json@);
                }
                let _ = push256(&mut config_string, json);
                assert(text256(config_string) =~= json@);
                match deserialize_config(&config_string, decode) {
                    Ok(config) => Ok(PicoCommand::SetConfig(config)),
                    Err(message) => Err(message),
                }
            },
        }
    } else if str_eq(command, "PRINT") {
        if parameter.is_some() {
            return Err("PRINT command does not take any parameters");
        }
        Ok(PicoCommand::PrintState)
    } else {
        Err("Unknown command")
    }
}

/// The characters of the words that make up the commands.
proof fn lemma_words()
    ensures
        "LED"@ =~= seq!['L', 'E', 'D'],
        "TEMP"@ =~= seq!['T', 'E', 'M', 'P'],
        "RESET"@ =~= seq!['R', 'E', 'S', 'E', 'T'],
        "CONFIG"@ =~= seq!['C', 'O', 'N', 'F', 'I', 'G'],
        "PRINT"@ =~= seq!['P', 'R', 'I', 'N', 'T'],
        "ON"@ =~= seq!['O', 'N'],
        "OFF"@ =~= seq!['O', 'F', 'F'],
        "TOGGLE"@ =~= seq!['T', 'O', 'G', 'G', 'L', 'E'],
        "LED ON"@ =~= "LED"@ + seq![' '] + "ON"@,
        "LED OFF"@ =~= "LED"@ + seq![' '] + "OFF"@,
        "LED TOGGLE"@ =~= "LED"@ + seq![' '] + "TOGGLE"@,
        "CONFIG "@ =~= "CONFIG"@ + seq![' '],
{
    reveal_strlit("LED");
    reveal_strlit("TEMP");
    reveal_strlit("RESET");
    reveal_strlit("CONFIG");
    reveal_strlit("PRINT");
    reveal_strlit("ON");
    reveal_strlit("OFF");
    reveal_strlit("TOGGLE");
    reveal_strlit("LED ON");
    reveal_strlit("LED OFF");
    reveal_strlit("LED TOGGLE");
    reveal_strlit("CONFIG ");
}

/// A line with a word, a space and a parameter splits into the word and the parameter.
proof fn lemma_split_joined(word: Seq<char>, parameter: Seq<char>)
    requires
        !word.contains(' '),
    ensures
        split_line(word + seq![' '] + parameter) == (word, Some(parameter)),
{
    let line = word + seq![' '] + parameter;
    line.index_of_first_ensures(' ');
    let n = word.len() as int;
    assert(line[n] == ' ');
    let i = line.index_of_first(' ')->Some_0;
    assert(i == n) by {
        if i < n {
            assert(word[i] == ' ');
        }
    }
    assert(line.take(n) =~= word);
    assert(line.skip(n + 1) =~= parameter);
}

/// A line without a space is all command.
proof fn lemma_split_word(word: Seq<char>)
    requires
        !word.contains(' '),
    ensures
        split_line(word) == (word, None::<Seq<char>>),
{
    word.index_of_first_ensures(' ');
}

/// A line that splits into a word and a parameter is the two with a space between them.
proof fn lemma_split_rejoins(line: Seq<char>)
    ensures
        match split_line(line) {
            (word, None) => line == word,
            (word, Some(parameter)) => line == word + seq![' '] + parameter,
        },
{
    line.index_of_first_ensures(' ');
    if let Some(i) = line.index_of_first(' ') {
        assert(line =~= line.take(i) + seq![' '] + line.skip(i + 1));
    }
}

/// The commands are exactly the lines of the requests: the line of each request asks for that
/// request, and every line that is not refused is the line of what it asks for.
pub proof fn law_request_lines(line: Seq<char>, r: Request)
    ensures
        request(line) == Ok::<Request, Seq<char>>(r) <==> line == request_line(r),
{
    lemma_words();
    lemma_split_rejoins(line);
    let word = match r {
        Request::Led(_) => "LED"@,
        Request::Config(_) => "CONFIG"@,
        Request::Temperature => "TEMP"@,
        Request::Reset => "RESET"@,
        Request::PrintState => "PRINT"@,
    };
    assert(!word.contains(' '));
    match r {
        Request::Led(LedCommandParameter::On) => lemma_split_joined(word, "ON"@),
        Request::Led(LedCommandParameter::Off) => lemma_split_joined(word, "OFF"@),
        Request::Led(LedCommandParameter::Toggle) => lemma_split_joined(word, "TOGGLE"@),
        Request::Config(json) => lemma_split_joined(word, json),
        _ => lemma_split_word(word),
    }
    assert("TEMP"@[0] == 'T' && "RESET"@[0] == 'R' && "CONFIG"@[0] == 'C' && "PRINT"@[0] == 'P'
        && "LED"@[0] == 'L');
    assert("ON"@.len() == 2 && "OFF"@.len() == 3 && "TOGGLE"@.len() == 6);
}

/// The lines that stand for commands, one by one: no other line stands for any of them.
pub proof fn law_command_lines(line: Seq<char>, json: Seq<char>)
    ensures
        request(line) == Ok::<Request, Seq<char>>(Request::Led(LedCommandParameter::On)) <==> line
            == "LED ON"@,
        request(line) == Ok::<Request, Seq<char>>(Request::Led(LedCommandParameter::Off)) <==> line
            == "LED OFF"@,
        request(line) == Ok::<Request, Seq<char>>(Request::Led(LedCommandParameter::Toggle))
            <==> line == "LED TOGGLE"@,
        request(line) == Ok::<Request, Seq<char>>(Request::Temperature) <==> line == "TEMP"@,
        request(line) == Ok::<Request, Seq<char>>(Request::Reset) <==> line == "RESET"@,
        request(line) == Ok::<Request, Seq<char>>(Request::PrintState) <==> line == "PRINT"@,
        request(line) == Ok::<Request, Seq<char>>(Request::Config(json)) <==> line == "CONFIG "@
            + json,
{
    law_request_lines(line, Request::Led(LedCommandParameter::On));
    law_request_lines(line, Request::Led(LedCommandParameter::Off));
    law_request_lines(line, Request::Led(LedCommandParameter::Toggle));
    law_request_lines(line, Request::Temperature);
    law_request_lines(line, Request::Reset);
    law_request_lines(line, Request::PrintState);
    law_request_lines(line, Request::Config(json));
}

/// The message that refuses a line: each word refuses a parameter too many or too few in its own
/// way, whatever the parameter is, and a line that begins with none of the words is unknown.
pub proof fn law_refused_lines(line: Seq<char>, p: Seq<char>)
    ensures
        request("LED"@) == Err::<Request, Seq<char>>(
            "LED command requires a parameter of ON or OFF"@,
        ),
        p != "ON"@ && p != "OFF"@ && p != "TOGGLE"@ ==> request("LED"@ + seq![' '] + p) == Err::<
            Request,
            Seq<char>,
        >("Invalid value for LED"@),
        request("TEMP"@ + seq![' '] + p) == Err::<Request, Seq<char>>(
            "TEMP command does not take any parameters"@,
        ),
        request("RESET"@ + seq![' '] + p) == Err::<Request, Seq<char>>(
            "RESET command does not take any parameters"@,
        ),
        request("PRINT"@ + seq![' '] + p) == Err::<Request, Seq<char>>(
            "PRINT command does not take any parameters"@,
        ),
        request("CONFIG"@) == Err::<Request, Seq<char>>("CONFIG requires a Json parameter"@),
        (forall|word: Seq<char>|
            word == "LED"@ || word == "TEMP"@ || word == "RESET"@ || word == "CONFIG"@ || word
                == "PRINT"@ ==> line != word && !(#[trigger] (word + seq![' '])).is_prefix_of(line))
            ==> request(line) == Err::<Request, Seq<char>>("Unknown command"@),
{
    lemma_words();
    assert(!"LED"@.contains(' ') && !"TEMP"@.contains(' ') && !"RESET"@.contains(' '));
    assert(!"CONFIG"@.contains(' ') && !"PRINT"@.contains(' '));
    assert("TEMP"@[0] == 'T' && "RESET"@[0] == 'R' && "CONFIG"@[0] == 'C' && "PRINT"@[0] == 'P'
        && "LED"@[0] == 'L');
    lemma_split_word("LED"@);
    lemma_split_word("CONFIG"@);
    lemma_split_joined("LED"@, p);
    lemma_split_joined("TEMP"@, p);
    lemma_split_joined("RESET"@, p);
    lemma_split_joined("PRINT"@, p);
    lemma_split_rejoins(line);
    let (word, parameter) = split_line(line);
    if let Some(q) = parameter {
        let begun = word + seq![' '];
        assert(begun =~= line.subrange(0, begun.len() as int));
        assert(begun.is_prefix_of(line));
    }
}

/// Each plain request is the command of the same name.
pub proof fn law_plain_commands(value: LedCommandParameter)
    ensures
        plain_command(Request::Led(value)) == PicoCommand::Led(value),
        plain_command(Request::Temperature) == PicoCommand::Temperature,
        plain_command(Request::Reset) == PicoCommand::Reset,
        plain_command(Request::PrintState) == PicoCommand::PrintState,
{
}

} // verus!
