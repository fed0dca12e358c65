use simmer::{CheckedTemperature, Float, Temperature};

fn fl(x: f64) -> Float {
    Float::from_bits(x.to_bits())
}

fn num(x: Float) -> f64 {
    f64::from_bits(x.to_bits())
}

/// A buffer of a hundred characters that takes what it is sent and drops
/// the rest.
struct CharArrWriter {
    data: [char; 100],
    taken: usize,
}

impl CharArrWriter {
    fn text(&self) -> String {
        self.data.iter().copied().collect::<String>().trim().to_string()
    }
}

impl Default for CharArrWriter {
    fn default() -> Self {
        Self { data: [' '; 100], taken: 0 }
    }
}

impl ufmt_write::uWrite for CharArrWriter {
    type Error = core::convert::Infallible;

    fn write_str(&mut self, s: &str) -> Result<(), core::convert::Infallible> {
        for c in s.chars() {
            if self.taken < 100 {
                self.data[self.taken] = c;
                self.taken += 1;
            } else {
                break;
            }
        }

        Ok(())
    }
}

/// The magnitude with five digits after the point.
fn five_digits(m: Float) -> String {
    let mut buf = CharArrWriter::default();
    let mut f = ufmt::Formatter::new(&mut buf);
    ufmt::uDisplay::fmt(&ufmt_float::uFmt_f64::Five(num(m)), &mut f).unwrap();
    buf.text()
}

/// The plain form of a temperature: its magnitude.
fn display(t: &Temperature) -> String {
    five_digits(t.get_inner())
}

/// The structured form of a temperature.
fn debug(t: &Temperature) -> String {
    let mut buf = CharArrWriter::default();
    let mut f = ufmt::Formatter::new(&mut buf);
    f.write_str(&t.debug_form(&five_digits(t.get_inner()))).unwrap();
    buf.text()
}

#[test]
fn ufmt_ufmt_display_print() {
    assert_eq!("0.00000", display(&Temperature::Celsius(fl(0.0))));

    assert_eq!("42.13000", display(&Temperature::Celsius(fl(42.13))));
}

#[test]
fn ufmt_ufmt_debug_print() {
    assert_eq!("Temperature::Celsius(0.00000)", debug(&Temperature::Celsius(fl(0.0))));

    assert_eq!("Temperature::Fahrenheit(4.05999)", debug(&Temperature::Fahrenheit(fl(4.06))));
}

#[test]
fn checked_ufmt_ufmt_display_print() {
    assert_eq!(
        "0.00000",
        display(&CheckedTemperature::new(Temperature::Celsius(fl(0.0))).unwrap().get_unchecked())
    );

    assert_eq!(
        "42.13000",
        display(&CheckedTemperature::new(Temperature::Celsius(fl(42.13))).unwrap().get_unchecked())
    );
}

#[test]
fn checked_ufmt_ufmt_debug_print() {
    assert_eq!(
        "Temperature::Celsius(0.00000)",
        debug(&CheckedTemperature::new(Temperature::Celsius(fl(0.0))).unwrap().get_unchecked())
    );

    assert_eq!(
        "Temperature::Fahrenheit(4.05999)",
        debug(&CheckedTemperature::new(Temperature::Fahrenheit(fl(4.06))).unwrap().get_unchecked())
    );
}

#[test]
fn the_structured_form_of_each_unit() {
    assert_eq!("Temperature::Kelvin(273.14999)", debug(&Temperature::Kelvin(fl(273.15))));
    assert_eq!("Temperature::Celsius(100.00000)", debug(&Temperature::Celsius(fl(100.0))));
    assert_eq!("Temperature::Fahrenheit(212.00000)", debug(&Temperature::Fahrenheit(fl(212.0))));
}
