pub mod conf;
pub mod console;
pub mod countdown;
pub mod decimal;
pub mod fakes;
pub mod pomodoro;
