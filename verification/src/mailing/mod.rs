pub mod mailer;
