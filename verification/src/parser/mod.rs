pub mod patterns;
pub mod rawlog;
pub mod warnings;
pub mod xcodebuild;
pub mod xcresult;
