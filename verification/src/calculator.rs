//! The model of a four-function calculator: what the display shows and what
//! is pending, as button presses come in.
//!
//! The model never touches a floating-point number. It carries a number as
//! the 64 bits of its IEEE 754 double-precision encoding, and leaves reading
//! the display as a number, the arithmetic itself and the printing of its
//! result to the caller.

use vstd::prelude::*;
use vstd::string::StringExecFns;

verus! {

/// A button press.
#[derive(Clone, Copy, Debug, PartialEq, Eq, Structural)]
pub enum Message {
    /// A digit button, with the digit on it.
    DigitPressed(char),
    /// An operator button, with the sign on it.
    OperatorPressed(char),
    /// The equals button.
    EqualsPressed,
    /// The clear button.
    ClearPressed,
}

/// One of the four operations.
#[derive(Clone, Copy, Debug, PartialEq, Eq, Structural)]
pub enum Operation {
    /// `+`
    Add,
    /// `-`
    Subtract,
    /// `*`
    Multiply,
    /// `/`
    Divide,
}

/// An operation that is ready to be carried out on two numbers.
#[derive(Clone, Copy, Debug, PartialEq, Eq, Structural)]
pub struct Arithmetic {
    /// What to do with the two numbers.
    pub operation: Operation,
    /// The number on the left of the operator.
    pub left: u64,
    /// The number on the right of the operator.
    pub right: u64,
}

/// Whether `bits` encode a number that compares equal to zero: positive or
/// negative zero.
pub open spec fn is_zero(bits: u64) -> bool {
    bits == 0 || bits == 0x8000_0000_0000_0000
}

/// What is shown when a division by zero is asked for.
pub open spec fn division_by_zero_text() -> Seq<char> {
    "錯誤: 除數不能為零"@
}

/// What is shown when the pending operator is none of the four.
pub open spec fn unsupported_operator_text(operator: char) -> Seq<char> {
    "錯誤: 不支援的運算符號 '"@.push(operator) + "'"@
}

/// What `operator` asks for on `num1` and `num2`: the arithmetic to carry
/// out, or the text that says why there is none.
pub open spec fn calculation(num1: u64, num2: u64, operator: char) -> Result<
    Arithmetic,
    Seq<char>,
> {
    if operator == '+' {
        Ok(Arithmetic { operation: Operation::Add, left: num1, right: num2 })
    } else if operator == '-' {
        Ok(Arithmetic { operation: Operation::Subtract, left: num1, right: num2 })
    } else if operator == '*' {
        Ok(Arithmetic { operation: Operation::Multiply, left: num1, right: num2 })
    } else if operator == '/' {
        if is_zero(num2) {
            Err(division_by_zero_text())
        } else {
            Ok(Arithmetic { operation: Operation::Divide, left: num1, right: num2 })
        }
    } else {
        Err(unsupported_operator_text(operator))
    }
}

/// Decides what `operator` asks for on `num1` and `num2`.
pub fn calculate(num1: u64, num2: u64, operator: char) -> (result: Result<Arithmetic, String>)
    ensures
        match calculation(num1, num2, operator) {
            Ok(arithmetic) => result == Ok::<Arithmetic, String>(arithmetic),
            Err(text) => result matches Err(message) && message@ == text,
        },
{
    match operator {
        '+' => Ok(Arithmetic { operation: Operation::Add, left: num1, right: num2 }),
        '-' => Ok(Arithmetic { operation: Operation::Subtract, left: num1, right: num2 }),
        '*' => Ok(Arithmetic { operation: Operation::Multiply, left: num1, right: num2 }),
        '/' => {
            if num2 == 0 || num2 == 0x8000_0000_0000_0000 {
                Err(String::from_str("錯誤: 除數不能為零"))
            } else {
                Ok(Arithmetic { operation: Operation::Divide, left: num1, right: num2 })
            }
        },
        _ => {
            let mut message = String::from_str("錯誤: 不支援的運算符號 '");
            message.push(operator);
            message.append("'");
            Err(message)
        },
    }
}

/// The state of a calculator as the contracts see it.
pub ghost struct CalculatorView {
    /// What the display shows.
    pub display: Seq<char>,
    /// The number entered before the pending operator.
    pub first_operand: Option<u64>,
    /// The operator waiting for its second operand.
    pub operator: Option<char>,
    /// Whether the next digit starts a new number.
    pub awaiting_second: bool,
}

impl CalculatorView {
    /// The state of a calculator that has just been switched on or cleared.
    pub open spec fn initial() -> CalculatorView {
        CalculatorView {
            display: seq!['0'],
            first_operand: None,
            operator: None,
            awaiting_second: false,
        }
    }

    /// The state that shows `text` after a calculation has come to its end.
    pub open spec fn settled(text: Seq<char>) -> CalculatorView {
        CalculatorView { display: text, first_operand: None, operator: None, awaiting_second: true }
    }

    /// What the equals button asks for when the display reads as
    /// `display_value`: nothing, unless a number and an operator are pending
    /// and the display reads as a number.
    pub open spec fn equals(self, display_value: Option<u64>) -> Option<
        Result<Arithmetic, Seq<char>>,
    > {
        match (self.first_operand, self.operator, display_value) {
            (Some(num1), Some(operator), Some(num2)) => Some(calculation(num1, num2, operator)),
            _ => None,
        }
    }

    /// The state after `message`, where the display reads as `display_value`.
    pub open spec fn step(self, message: Message, display_value: Option<u64>) -> CalculatorView {
        match message {
            Message::DigitPressed(digit) => {
                if self.awaiting_second || self.display == seq!['0'] {
                    CalculatorView { display: seq![digit], awaiting_second: false, ..self }
                } else {
                    CalculatorView { display: self.display.push(digit), ..self }
                }
            },
            Message::OperatorPressed(operator) => {
                match display_value {
                    Some(number) => CalculatorView {
                        first_operand: Some(number),
                        operator: Some(operator),
                        awaiting_second: true,
                        ..self
                    },
                    None => self,
                }
            },
            Message::EqualsPressed => {
                match self.equals(display_value) {
                    Some(Err(text)) => CalculatorView::settled(text),
                    _ => self,
                }
            },
            Message::ClearPressed => CalculatorView::initial(),
        }
    }

    /// The arithmetic that `message` leaves to the caller, where the display
    /// reads as `display_value`.
    pub open spec fn work(self, message: Message, display_value: Option<u64>) -> Option<
        Arithmetic,
    > {
        match message {
            Message::EqualsPressed => {
                match self.equals(display_value) {
                    Some(Ok(arithmetic)) => Some(arithmetic),
                    _ => None,
                }
            },
            _ => None,
        }
    }
}

/// A calculator.
#[derive(Debug)]
pub struct Calculator {
    display: String,
    first_operand: Option<u64>,
    operator: Option<char>,
    awaiting_second: bool,
}

impl View for Calculator {
    type V = CalculatorView;

    closed spec fn view(&self) -> CalculatorView {
        CalculatorView {
            display: self.display@,
            first_operand: self.first_operand,
            operator: self.operator,
            awaiting_second: self.awaiting_second,
        }
    }
}

impl Calculator {
    /// A calculator whose display shows `0` and that has nothing pending.
    pub fn new() -> (calculator: Calculator)
        ensures
            calculator@ == CalculatorView::initial(),
    {
        let mut display = String::new();
        display.push('0');
        Calculator { display, first_operand: None, operator: None, awaiting_second: false }
    }

    /// What the display shows.
    pub fn display(&self) -> (text: &str)
        ensures
            text@ == self@.display,
    {
        self.display.as_str()
    }

    /// The number entered before the pending operator, if there is one.
    pub fn first_operand(&self) -> (operand: Option<u64>)
        ensures
            operand == self@.first_operand,
    {
        self.first_operand
    }

    /// The operator waiting for its second operand, if there is one.
    pub fn operator(&self) -> (operator: Option<char>)
        ensures
            operator == self@.operator,
    {
        self.operator
    }

    /// Whether the next digit starts a new number.
    pub fn awaiting_second(&self) -> (awaiting: bool)
        ensures
            awaiting == self@.awaiting_second,
    {
        self.awaiting_second
    }

    /// Whether the display shows a single `0`.
    fn shows_zero(&self) -> (zero: bool)
        ensures
            zero == (self@.display == seq!['0']),
    {
        let text = self.display.as_str();
        if !text.is_ascii() {
            return false;
        }
        let bytes = text.as_bytes();
        proof {
            vstd::string::is_ascii_spec_bytes(text);
            if bytes@.len() == 1 && bytes@[0] == 48 {
                assert(text@ =~= seq!['0']);
            }
        }
        bytes.len() == 1 && bytes[0] == 48
    }

    /// Shows `text` as the end of a calculation: nothing is pending any more
    /// and the next digit starts a new number.
    pub fn show_result(&mut self, text: String)
        ensures
            final(self)@ == CalculatorView::settled(text@),
    {
        self.display = text;
        self.first_operand = None;
        self.operator = None;
        self.awaiting_second = true;
    }

    /// Takes a button press into the state. `display_value` is the display
    /// read as a number, or `None` where it does not read as one. Where the
    /// press asks for arithmetic, the state stays as it is and the arithmetic
    /// is returned: the caller carries it out and hands the text of the
    /// result to `show_result`.
    pub fn update(&mut self, message: Message, display_value: Option<u64>) -> (work: Option<
        Arithmetic,
    >)
        ensures
            final(self)@ == old(self)@.step(message, display_value),
            work == old(self)@.work(message, display_value),
    {
        match message {
            Message::DigitPressed(digit) => {
                if self.awaiting_second || self.shows_zero() {
                    self.display.clear();
                    self.display.push(digit);
                    self.awaiting_second = false;
                } else {
                    self.display.push(digit);
                }
                None
            },
            Message::OperatorPressed(operator) => {
                if let Some(number) = display_value {
                    self.first_operand = Some(number);
                    self.operator = Some(operator);
                    self.awaiting_second = true;
                }
                None
            },
            Message::EqualsPressed => {
                match (self.first_operand, self.operator, display_value) {
                    (Some(num1), Some(operator), Some(num2)) => {
                        match calculate(num1, num2, operator) {
                            Ok(arithmetic) => Some(arithmetic),
                            Err(text) => {
                                self.show_result(text);
                                None
                            },
                        }
                    },
                    _ => None,
                }
            },
            Message::ClearPressed => {
                self.display.clear();
                self.display.push('0');
                self.first_operand = None;
                self.operator = None;
                self.awaiting_second = false;
                None
            },
        }
    }
}

} // verus!
