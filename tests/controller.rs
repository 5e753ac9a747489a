use gpiomem::controller::Controller;
use gpiomem::page::RegisterPage;
use gpiomem::pin::{GpioError, PinFunction, PinLevel};

fn fresh() -> Controller {
    Controller::new(RegisterPage::new())
}

fn word(c: &Controller, offset: usize) -> u32 {
    c.page().read_u32(offset)
}

/// The level-read register follows the set and clear registers, as the
/// hardware's loop-back does.
fn loop_back(c: Controller) -> Controller {
    let mut page = c.into_page();
    page.settle();
    Controller::new(page)
}

#[test]
fn scenario_output_pin_driven_high() {
    let mut c = fresh();
    assert_eq!(c.set_function(7, PinFunction::Output), Ok(()));
    assert_eq!(word(&c, 0x00), 0b001 << 21);
    assert_eq!(c.set_level(7, PinLevel::High), Ok(()));
    let set = word(&c, 0x1C);
    assert_eq!((set >> 7) & 1, 1);
    assert_eq!(set & !(1 << 7), 0);
    let c = loop_back(c);
    assert_eq!(c.get_level(7), Ok(PinLevel::High));
}

#[test]
fn set_function_keeps_other_fields() {
    let mut page = RegisterPage::new();
    page.write_u32(0x04, 0xFFFF_FFFF);
    page.write_u32(0x00, 0x2492_4924);
    let mut c = Controller::new(page);
    assert_eq!(c.set_function(15, PinFunction::Output), Ok(()));
    assert_eq!(word(&c, 0x04), 0xFFFC_FFFF | (0b001 << 15));
    assert_eq!(word(&c, 0x00), 0x2492_4924);
    assert_eq!(c.set_function(15, PinFunction::Input), Ok(()));
    assert_eq!(word(&c, 0x04), 0xFFFC_7FFF);
}

#[test]
fn set_function_at_field_boundaries() {
    let mut c = fresh();
    assert_eq!(c.set_function(9, PinFunction::Output), Ok(()));
    assert_eq!(c.set_function(10, PinFunction::Output), Ok(()));
    assert_eq!(c.set_function(53, PinFunction::Output), Ok(()));
    assert_eq!(word(&c, 0x00), 1 << 27);
    assert_eq!(word(&c, 0x04), 1);
    assert_eq!(word(&c, 0x14), 1 << 9);
}

#[test]
fn set_level_writes_only_the_pin_bit() {
    let mut page = RegisterPage::new();
    page.write_u32(0x34, 0x0F0F_0F0F);
    let mut c = Controller::new(page);
    assert_eq!(c.set_level(20, PinLevel::High), Ok(()));
    assert_eq!(word(&c, 0x1C), 1 << 20);
    assert_eq!(word(&c, 0x28), 0);
    assert_eq!(c.set_level(33, PinLevel::Low), Ok(()));
    assert_eq!(word(&c, 0x2C), 1 << 1);
    let c = loop_back(c);
    assert_eq!(word(&c, 0x34), 0x0F1F_0F0F);
    for pin in 0..32u8 {
        let expected = if pin == 20 || (0x0F0F_0F0Fu32 >> pin) & 1 == 1 {
            PinLevel::High
        } else {
            PinLevel::Low
        };
        assert_eq!(c.get_level(pin), Ok(expected));
    }
}

#[test]
fn read_reflects_last_write_in_each_group() {
    let mut c = fresh();
    for pin in [5u8, 31, 32, 53] {
        assert_eq!(c.set_level(pin, PinLevel::High), Ok(()));
        c = loop_back(c);
        assert_eq!(c.get_level(pin), Ok(PinLevel::High));
        assert_eq!(c.set_level(pin, PinLevel::Low), Ok(()));
        c = loop_back(c);
        assert_eq!(c.get_level(pin), Ok(PinLevel::Low));
    }
}

#[test]
fn get_level_reads_the_level_register() {
    let mut page = RegisterPage::new();
    page.write_u32(0x38, 1 << 21);
    let c = Controller::new(page);
    assert_eq!(c.get_level(53), Ok(PinLevel::High));
    assert_eq!(c.get_level(52), Ok(PinLevel::Low));
    assert_eq!(c.get_level(21), Ok(PinLevel::Low));
}

#[test]
fn invalid_pin_is_rejected_before_any_access() {
    let mut c = fresh();
    assert_eq!(c.set_function(54, PinFunction::Output), Err(GpioError::InvalidPin));
    assert_eq!(c.set_level(54, PinLevel::High), Err(GpioError::InvalidPin));
    assert_eq!(c.set_level(255, PinLevel::Low), Err(GpioError::InvalidPin));
    assert_eq!(c.get_level(54), Err(GpioError::InvalidPin));
    for offset in (0..4096).step_by(4) {
        assert_eq!(word(&c, offset), 0);
    }
    assert_eq!(Controller::check_pin(53), Ok(()));
    assert_eq!(Controller::check_pin(54), Err(GpioError::InvalidPin));
}

#[test]
fn page_read_write() {
    let mut page = RegisterPage::new();
    page.write_u32(4092, 0xDEAD_BEEF);
    assert_eq!(page.read_u32(4092), 0xDEAD_BEEF);
    assert_eq!(page.read_u32(4088), 0);
}

#[test]
fn settle_clears_pending_requests() {
    let mut page = RegisterPage::new();
    page.write_u32(0x1C, 0b0110);
    page.write_u32(0x28, 0b0100);
    page.write_u32(0x34, 0b1000);
    page.write_u32(0x20, 1);
    page.settle();
    assert_eq!(page.read_u32(0x34), 0b1010);
    assert_eq!(page.read_u32(0x38), 1);
    assert_eq!(page.read_u32(0x1C), 0);
    assert_eq!(page.read_u32(0x20), 0);
    assert_eq!(page.read_u32(0x28), 0);
}

#[test]
fn function_codes() {
    assert_eq!(PinFunction::Input.code(), 0b000);
    assert_eq!(PinFunction::Output.code(), 0b001);
}
