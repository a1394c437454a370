use kernel_irq::IRQNumber;

#[test]
fn maximum_is_accepted() {
    let irq = IRQNumber::<31>::new(31);
    assert_eq!(irq.get(), 31);
    assert_eq!(IRQNumber::<31>::num_total(), 32);
}

#[test]
fn every_value_up_to_the_maximum_is_returned_unchanged() {
    let mut value: usize = 0;
    while value <= 31 {
        assert_eq!(IRQNumber::<31>::new(value).get(), value);
        value += 1;
    }
}

#[test]
fn zero_is_the_only_number_of_a_type_with_maximum_zero() {
    let irq = IRQNumber::<0>::new(0);
    assert_eq!(irq.get(), 0);
    assert_eq!(IRQNumber::<0>::num_total(), 1);
}

#[test]
fn num_total_is_one_more_than_the_maximum() {
    assert_eq!(IRQNumber::<1>::num_total(), 2);
    assert_eq!(IRQNumber::<95>::num_total(), 96);
    assert_eq!(IRQNumber::<1019>::num_total(), 1020);
    assert_eq!(IRQNumber::<65535>::num_total(), 65536);
}

#[test]
fn the_largest_machine_number_can_be_wrapped() {
    let irq = IRQNumber::<{ usize::MAX }>::new(usize::MAX);
    assert_eq!(irq.get(), usize::MAX);
}

#[test]
fn a_copy_names_the_same_line() {
    let irq = IRQNumber::<31>::new(17);
    let copy = irq;
    let clone = irq.clone();
    assert_eq!(irq.get(), 17);
    assert_eq!(copy.get(), 17);
    assert_eq!(clone.get(), 17);
}

#[test]
fn numbers_are_equal_when_their_lines_are() {
    assert!(IRQNumber::<31>::new(5) == IRQNumber::<31>::new(5));
    assert!(IRQNumber::<31>::new(5) != IRQNumber::<31>::new(6));
    assert_eq!(IRQNumber::<31>::new(0), IRQNumber::<31>::new(0));
    assert_ne!(IRQNumber::<31>::new(0), IRQNumber::<31>::new(31));
}

#[test]
fn numbers_are_ordered_as_their_lines() {
    let low = IRQNumber::<31>::new(3);
    let high = IRQNumber::<31>::new(30);
    assert!(low < high);
    assert!(high > low);
    assert!(low <= low);
    assert!(low >= low);
    assert!(!(high < low));
    assert_eq!(low.partial_cmp(&high), Some(std::cmp::Ordering::Less));
    assert_eq!(high.partial_cmp(&low), Some(std::cmp::Ordering::Greater));
    assert_eq!(low.partial_cmp(&low), Some(std::cmp::Ordering::Equal));
    assert_eq!(low.cmp(&high), std::cmp::Ordering::Less);
    assert_eq!(low.max(high).get(), 30);
    assert_eq!(low.min(high).get(), 3);
}

#[test]
fn sorting_puts_numbers_in_line_order() {
    let mut numbers = vec![
        IRQNumber::<31>::new(9),
        IRQNumber::<31>::new(0),
        IRQNumber::<31>::new(31),
        IRQNumber::<31>::new(4),
    ];
    numbers.sort();
    let lines: Vec<usize> = numbers.iter().map(|irq| irq.get()).collect();
    assert_eq!(lines, vec![0, 4, 9, 31]);
}

#[test]
fn a_number_is_rendered_in_decimal() {
    assert_eq!(IRQNumber::<31>::new(0).to_string(), "0");
    assert_eq!(IRQNumber::<31>::new(7).to_string(), "7");
    assert_eq!(IRQNumber::<31>::new(10).to_string(), "10");
    assert_eq!(IRQNumber::<31>::new(31).to_string(), "31");
    assert_eq!(IRQNumber::<1019>::new(1019).to_string(), "1019");
    assert_eq!(IRQNumber::<1019>::new(100).to_string(), "100");
    assert_eq!(IRQNumber::<1019>::new(909).to_string(), "909");
}

#[test]
fn every_digit_is_rendered() {
    assert_eq!(IRQNumber::<4294967295>::new(1234567890).to_string(), "1234567890");
}

#[test]
fn rendering_agrees_with_the_rendering_of_the_wrapped_number() {
    let mut value: usize = 0;
    while value <= 1019 {
        assert_eq!(IRQNumber::<1019>::new(value).to_string(), format!("{}", value));
        value += 1;
    }
    assert_eq!(
        IRQNumber::<{ usize::MAX }>::new(usize::MAX).to_string(),
        format!("{}", usize::MAX)
    );
}

#[test]
fn debug_output_names_the_type() {
    let text = format!("{:?}", IRQNumber::<31>::new(5));
    assert!(text.contains("IRQNumber"));
    assert!(text.contains('5'));
}
