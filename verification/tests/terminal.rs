use hacknotts_checkin::checkin_output::PrintableProjection;
use hacknotts_checkin::stdout_checkin_output::{StdOutCheckinOutput, WIDTH};

#[test]
fn the_terminal_shows_logo_name_and_reference() {
    let badge = PrintableProjection {
        name: "James Harvey".to_string(),
        reference: "HKUW-1".to_string(),
        discord: "jmshrv".to_string(),
        pizza: "Pepperoni".to_string(),
        release_title: "Hacker".to_string(),
    };
    let lines = StdOutCheckinOutput.lines(&badge);
    let logo = " __   __   __     
|  |_|  |_|  |    
|            |    
'-----,      |    
      |      |    
   /  |  \\   |    
   \\  |  /   |    
      |      |    
      '------' ";
    let mut expected = vec![format!("{:^40}", "HackNotts 24")];
    for line in logo.lines() {
        expected.push(format!("{:^40}", line));
    }
    expected.push(format!("{:^40}", "James Harvey"));
    expected.push(format!("{:^40}", "HKUW-1"));
    assert_eq!(lines, expected);
    assert_eq!(lines.len(), 12);
    assert_eq!(lines[0], "              HackNotts 24              ");
    assert_eq!(lines[10], "              James Harvey              ");
    assert_eq!(lines[11], "                 HKUW-1                 ");
    assert_eq!(WIDTH, 40);
}

#[test]
fn the_terminal_leaves_long_names_as_they_are() {
    let name = "A name that is a good deal longer than forty characters";
    let badge = PrintableProjection {
        name: name.to_string(),
        reference: "R".to_string(),
        discord: "d".to_string(),
        pizza: "p".to_string(),
        release_title: "t".to_string(),
    };
    let lines = StdOutCheckinOutput.lines(&badge);
    assert_eq!(lines[10], name);
    assert_eq!(lines[11], format!("{}R{}", " ".repeat(19), " ".repeat(20)));
}
