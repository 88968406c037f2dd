use rust_dev::calculator::{calculate, Arithmetic, Calculator, Message, Operation};

fn bits(number: f64) -> u64 {
    number.to_bits()
}

fn read(calculator: &Calculator) -> Option<u64> {
    calculator.display().parse::<f64>().ok().map(f64::to_bits)
}

fn press(calculator: &mut Calculator, message: Message) -> Option<Arithmetic> {
    let value = read(calculator);
    calculator.update(message, value)
}

fn carry_out(arithmetic: Arithmetic) -> String {
    let left = f64::from_bits(arithmetic.left);
    let right = f64::from_bits(arithmetic.right);
    let result = match arithmetic.operation {
        Operation::Add => left + right,
        Operation::Subtract => left - right,
        Operation::Multiply => left * right,
        Operation::Divide => left / right,
    };
    format!("{}", result)
}

fn press_all(calculator: &mut Calculator, keys: &str) {
    for key in keys.chars() {
        let message = match key {
            '0'..='9' => Message::DigitPressed(key),
            '=' => Message::EqualsPressed,
            'C' => Message::ClearPressed,
            _ => Message::OperatorPressed(key),
        };
        if let Some(arithmetic) = press(calculator, message) {
            calculator.show_result(carry_out(arithmetic));
        }
    }
}

#[test]
fn starts_at_zero() {
    let calculator = Calculator::new();
    assert_eq!(calculator.display(), "0");
    assert_eq!(calculator.first_operand(), None);
    assert_eq!(calculator.operator(), None);
    assert!(!calculator.awaiting_second());
}

#[test]
fn first_digit_replaces_the_zero() {
    let mut calculator = Calculator::new();
    assert_eq!(calculator.update(Message::DigitPressed('7'), Some(bits(0.0))), None);
    assert_eq!(calculator.display(), "7");
    assert!(!calculator.awaiting_second());
}

#[test]
fn digits_are_appended() {
    let mut calculator = Calculator::new();
    press_all(&mut calculator, "1203");
    assert_eq!(calculator.display(), "1203");
}

#[test]
fn zero_after_zero_stays_one_zero() {
    let mut calculator = Calculator::new();
    press_all(&mut calculator, "000");
    assert_eq!(calculator.display(), "0");
    press_all(&mut calculator, "50");
    assert_eq!(calculator.display(), "50");
}

#[test]
fn operator_keeps_the_display_and_waits() {
    let mut calculator = Calculator::new();
    press_all(&mut calculator, "12");
    assert_eq!(calculator.update(Message::OperatorPressed('+'), Some(bits(12.0))), None);
    assert_eq!(calculator.display(), "12");
    assert_eq!(calculator.first_operand(), Some(bits(12.0)));
    assert_eq!(calculator.operator(), Some('+'));
    assert!(calculator.awaiting_second());
    press_all(&mut calculator, "3");
    assert_eq!(calculator.display(), "3");
    assert!(!calculator.awaiting_second());
    assert_eq!(calculator.first_operand(), Some(bits(12.0)));
}

#[test]
fn operator_is_ignored_when_the_display_is_no_number() {
    let mut calculator = Calculator::new();
    press_all(&mut calculator, "9");
    assert_eq!(calculator.update(Message::OperatorPressed('*'), None), None);
    assert_eq!(calculator.display(), "9");
    assert_eq!(calculator.first_operand(), None);
    assert_eq!(calculator.operator(), None);
    assert!(!calculator.awaiting_second());
}

#[test]
fn a_later_operator_replaces_the_pending_one() {
    let mut calculator = Calculator::new();
    press_all(&mut calculator, "8+-");
    assert_eq!(calculator.operator(), Some('-'));
    assert_eq!(calculator.first_operand(), Some(bits(8.0)));
    press_all(&mut calculator, "3=");
    assert_eq!(calculator.display(), "5");
}

#[test]
fn equals_hands_out_the_arithmetic() {
    let mut calculator = Calculator::new();
    press_all(&mut calculator, "12+30");
    let work = calculator.update(Message::EqualsPressed, Some(bits(30.0)));
    assert_eq!(
        work,
        Some(Arithmetic { operation: Operation::Add, left: bits(12.0), right: bits(30.0) })
    );
    // Nothing changes until the result is shown.
    assert_eq!(calculator.display(), "30");
    assert_eq!(calculator.first_operand(), Some(bits(12.0)));
    assert_eq!(calculator.operator(), Some('+'));
    calculator.show_result(carry_out(work.unwrap()));
    assert_eq!(calculator.display(), "42");
    assert_eq!(calculator.first_operand(), None);
    assert_eq!(calculator.operator(), None);
    assert!(calculator.awaiting_second());
}

#[test]
fn four_operations() {
    for (keys, shown) in [("6+3=", "9"), ("6-9=", "-3"), ("6*7=", "42"), ("7/2=", "3.5")] {
        let mut calculator = Calculator::new();
        press_all(&mut calculator, keys);
        assert_eq!(calculator.display(), shown);
    }
}

#[test]
fn a_digit_after_a_result_starts_anew() {
    let mut calculator = Calculator::new();
    press_all(&mut calculator, "2*3=");
    assert_eq!(calculator.display(), "6");
    press_all(&mut calculator, "45");
    assert_eq!(calculator.display(), "45");
}

#[test]
fn a_result_can_be_the_next_first_operand() {
    let mut calculator = Calculator::new();
    press_all(&mut calculator, "2*3=+4=");
    assert_eq!(calculator.display(), "10");
}

#[test]
fn equals_without_anything_pending_does_nothing() {
    let mut calculator = Calculator::new();
    press_all(&mut calculator, "15");
    assert_eq!(calculator.update(Message::EqualsPressed, Some(bits(15.0))), None);
    assert_eq!(calculator.display(), "15");
    assert!(!calculator.awaiting_second());
}

#[test]
fn equals_does_nothing_when_the_display_is_no_number() {
    let mut calculator = Calculator::new();
    press_all(&mut calculator, "15+2");
    assert_eq!(calculator.update(Message::EqualsPressed, None), None);
    assert_eq!(calculator.display(), "2");
    assert_eq!(calculator.first_operand(), Some(bits(15.0)));
    assert_eq!(calculator.operator(), Some('+'));
}

#[test]
fn division_by_zero_is_shown() {
    let mut calculator = Calculator::new();
    press_all(&mut calculator, "8/0");
    assert_eq!(calculator.update(Message::EqualsPressed, Some(bits(0.0))), None);
    assert_eq!(calculator.display(), "錯誤: 除數不能為零");
    assert_eq!(calculator.first_operand(), None);
    assert_eq!(calculator.operator(), None);
    assert!(calculator.awaiting_second());
    // The message does not read as a number, so operators have no effect.
    press_all(&mut calculator, "+");
    assert_eq!(calculator.operator(), None);
    press_all(&mut calculator, "7");
    assert_eq!(calculator.display(), "7");
}

#[test]
fn unknown_operator_is_shown() {
    let mut calculator = Calculator::new();
    press_all(&mut calculator, "8%2=");
    assert_eq!(calculator.display(), "錯誤: 不支援的運算符號 '%'");
    assert_eq!(calculator.first_operand(), None);
    assert!(calculator.awaiting_second());
}

#[test]
fn clear_resets_everything() {
    let mut calculator = Calculator::new();
    press_all(&mut calculator, "12+3");
    assert_eq!(calculator.update(Message::ClearPressed, Some(bits(3.0))), None);
    assert_eq!(calculator.display(), "0");
    assert_eq!(calculator.first_operand(), None);
    assert_eq!(calculator.operator(), None);
    assert!(!calculator.awaiting_second());
    press_all(&mut calculator, "8/0=C");
    assert_eq!(calculator.display(), "0");
    assert!(!calculator.awaiting_second());
}

#[test]
fn calculate_picks_the_operation() {
    let (a, b) = (bits(1.5), bits(-2.0));
    assert_eq!(calculate(a, b, '+'), Ok(Arithmetic { operation: Operation::Add, left: a, right: b }));
    assert_eq!(
        calculate(a, b, '-'),
        Ok(Arithmetic { operation: Operation::Subtract, left: a, right: b })
    );
    assert_eq!(
        calculate(a, b, '*'),
        Ok(Arithmetic { operation: Operation::Multiply, left: a, right: b })
    );
    assert_eq!(
        calculate(a, b, '/'),
        Ok(Arithmetic { operation: Operation::Divide, left: a, right: b })
    );
}

#[test]
fn calculate_refuses_to_divide_by_either_zero() {
    let message = Err(String::from("錯誤: 除數不能為零"));
    assert_eq!(calculate(bits(1.0), bits(0.0), '/'), message);
    assert_eq!(calculate(bits(1.0), bits(-0.0), '/'), message);
    assert_eq!(calculate(bits(0.0), bits(0.0), '/'), message);
    assert!(calculate(bits(1.0), bits(f64::MIN_POSITIVE), '/').is_ok());
    assert!(calculate(bits(1.0), bits(f64::NAN), '/').is_ok());
    assert!(calculate(bits(0.0), bits(1.0), '/').is_ok());
}

#[test]
fn calculate_adds_by_zero_without_complaint() {
    assert!(calculate(bits(1.0), bits(0.0), '+').is_ok());
    assert!(calculate(bits(1.0), bits(0.0), '*').is_ok());
}

#[test]
fn calculate_names_the_unknown_operator() {
    assert_eq!(calculate(1, 2, '^'), Err(String::from("錯誤: 不支援的運算符號 '^'")));
    assert_eq!(calculate(1, 0, 'x'), Err(String::from("錯誤: 不支援的運算符號 'x'")));
    assert_eq!(calculate(1, 2, '÷'), Err(String::from("錯誤: 不支援的運算符號 '÷'")));
}

#[test]
fn show_result_takes_any_text() {
    let mut calculator = Calculator::new();
    press_all(&mut calculator, "1+2");
    calculator.show_result(String::from("inf"));
    assert_eq!(calculator.display(), "inf");
    assert_eq!(calculator.first_operand(), None);
    assert_eq!(calculator.operator(), None);
    assert!(calculator.awaiting_second());
}
